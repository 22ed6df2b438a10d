//! The mapper sum type: one variant per supported board, with dispatch of
//! every mapper operation and the mapper-number factory.

use vstd::prelude::*;

verus! {

use crate::mapper::{max1, ChrAccess, MAX_CHR_8K, MAX_PRG_16K};
use crate::types::Mirroring;
use crate::mapper::discrete::CnromProtectVariant;
use crate::mapper::ave::prg_32k_of;
use crate::mapper::sachen::{Sachen8259Variant, Sachen74Ls374NVariant};
use crate::mapper::subor::SuborVariant;
use crate::mapper::nanjing::NanjingVariant;
use crate::mapper::txc::TxcVariant;
use crate::mapper::special::fds_prg_8k_of;
use crate::mapper::multicart::AddrLatchVariant;
use crate::mapper::latch_boards::UnromVariant;
use crate::mapper::jy::JyAsicVariant;
use crate::mapper::board::{Nrom, Unrom, Cnrom, Axrom, ColorDreams, Gxrom, Codemasters, Bf9096};
use crate::mapper::latch::{Cprom, Bandai74161, Mapper36, Mapper81, Mapper8, Mapper99, Mapper29, UnlPci556, Mapper72, Mapper122, Mapper79, Mapper107, Mapper92, JalecoJf11_14, Mapper203};
use crate::mapper::discrete::{Mapper185, Mapper188, Mapper193, Mapper186, Mapper218};
use crate::mapper::ave::{Bnrom, Nina01};
use crate::mapper::sachen::{Sachen133, SachenSa0161m, Sachen149, Sachen8259, Sachen74Ls374N};
use crate::mapper::sunsoft::{Sunsoft4, Sunsoft184, Sunsoft89};
use crate::mapper::longtail::{Mapper271, Mapper285, Mapper310, Mapper319, Mapper326};
use crate::mapper::opencorp::{Mapper156};
use crate::mapper::subor::{Subor166};
use crate::mapper::nanjing::{NanjingMapper};
use crate::mapper::ntdec::{Ntdec112, Tf1201};
use crate::mapper::txc::{TxcMapper};
use crate::mapper::namco::{Namco118, Namco108Mapper95, Namco108Mapper206, Namco108Mapper154};
use crate::mapper::special::{Mapper103, Mapper120, Mapper104, Mapper108, Mapper190, Mapper168, Mapper170, Mapper177, Mapper230, Mapper233, Mapper175, Mapper234};
use crate::mapper::sl12::{Mapper116};
use crate::mapper::taito::{TaitoTc0190, TaitoX1005, TaitoX1017};
use crate::mapper::multicart::{ActionEnterprises, AddrLatch16k};
use crate::mapper::bandai::{BandaiFcg};
use crate::mapper::multicart2::{Mapper15, Action53, Mapper53, Mapper51, Mapper57, Mapper63, Mapper128, Mapper226, Mapper240, Mapper241, Mapper244, Mapper246, Mapper236, Mapper237};
use crate::mapper::latch_boards::{Mapper31, Mapper96, Nina03_06, Caltron41, ColorDreams46, Mapper151, JalecoJf16, JalecoJfxx, JalecoJf13, UnromVariantMapper};
use crate::mapper::irem::{IremG101, IremLrog017, IremTamS1};
use crate::mapper::konami::{Vrc1};
use crate::mapper::irq_boards::{Mapper18, Mapper40, Mapper42, Mapper50, Mapper65, Mapper67, Mapper73, Mapper117};
use crate::mapper::unlicensed::{Mapper60, Mapper83, Mapper183, Mapper212, Mapper222, Mapper235};
use crate::mapper::bootleg::{Mapper272, Mapper330};
use crate::mapper::jy::{Mapper91, JyAsic};

/// A supported board, holding its live register state.
#[derive(Debug, Clone)]
pub enum Mapper {
    Nrom(Nrom),
    Unrom(Unrom),
    Cnrom(Cnrom),
    Axrom(Axrom),
    ColorDreams(ColorDreams),
    Gxrom(Gxrom),
    Codemasters(Codemasters),
    Bf9096(Bf9096),
    Cprom(Cprom),
    Bandai74161(Bandai74161),
    Mapper36(Mapper36),
    Mapper81(Mapper81),
    Mapper8(Mapper8),
    Mapper99(Mapper99),
    Mapper29(Mapper29),
    UnlPci556(UnlPci556),
    Mapper72(Mapper72),
    Mapper122(Mapper122),
    Mapper79(Mapper79),
    Mapper107(Mapper107),
    Mapper92(Mapper92),
    JalecoJf11_14(JalecoJf11_14),
    Mapper203(Mapper203),
    Mapper185(Mapper185),
    Mapper188(Mapper188),
    Mapper193(Mapper193),
    Mapper186(Mapper186),
    Mapper218(Mapper218),
    Bnrom(Bnrom),
    Nina01(Nina01),
    Sachen133(Sachen133),
    SachenSa0161m(SachenSa0161m),
    Sachen149(Sachen149),
    Sachen8259(Sachen8259),
    Sachen74Ls374N(Sachen74Ls374N),
    Sunsoft4(Sunsoft4),
    Sunsoft184(Sunsoft184),
    Sunsoft89(Sunsoft89),
    Mapper271(Mapper271),
    Mapper285(Mapper285),
    Mapper310(Mapper310),
    Mapper319(Mapper319),
    Mapper326(Mapper326),
    Mapper156(Mapper156),
    Subor166(Subor166),
    NanjingMapper(NanjingMapper),
    Ntdec112(Ntdec112),
    Tf1201(Tf1201),
    TxcMapper(TxcMapper),
    Namco118(Namco118),
    Namco108Mapper95(Namco108Mapper95),
    Namco108Mapper206(Namco108Mapper206),
    Namco108Mapper154(Namco108Mapper154),
    Mapper103(Mapper103),
    Mapper120(Mapper120),
    Mapper104(Mapper104),
    Mapper108(Mapper108),
    Mapper190(Mapper190),
    Mapper168(Mapper168),
    Mapper170(Mapper170),
    Mapper177(Mapper177),
    Mapper230(Mapper230),
    Mapper233(Mapper233),
    Mapper116(Mapper116),
    TaitoTc0190(TaitoTc0190),
    TaitoX1005(TaitoX1005),
    TaitoX1017(TaitoX1017),
    ActionEnterprises(ActionEnterprises),
    AddrLatch16k(AddrLatch16k),
    BandaiFcg(BandaiFcg),
    Mapper15(Mapper15),
    Action53(Action53),
    Mapper53(Mapper53),
    Mapper51(Mapper51),
    Mapper57(Mapper57),
    Mapper63(Mapper63),
    Mapper128(Mapper128),
    Mapper226(Mapper226),
    Mapper240(Mapper240),
    Mapper241(Mapper241),
    Mapper244(Mapper244),
    Mapper246(Mapper246),
    Mapper236(Mapper236),
    Mapper237(Mapper237),
    Mapper31(Mapper31),
    Mapper96(Mapper96),
    Nina03_06(Nina03_06),
    Caltron41(Caltron41),
    ColorDreams46(ColorDreams46),
    Mapper151(Mapper151),
    JalecoJf16(JalecoJf16),
    JalecoJfxx(JalecoJfxx),
    JalecoJf13(JalecoJf13),
    UnromVariantMapper(UnromVariantMapper),
    IremG101(IremG101),
    IremLrog017(IremLrog017),
    IremTamS1(IremTamS1),
    Vrc1(Vrc1),
    Mapper18(Mapper18),
    Mapper40(Mapper40),
    Mapper42(Mapper42),
    Mapper50(Mapper50),
    Mapper65(Mapper65),
    Mapper67(Mapper67),
    Mapper73(Mapper73),
    Mapper117(Mapper117),
    Mapper175(Mapper175),
    Mapper234(Mapper234),
    Mapper60(Mapper60),
    Mapper83(Mapper83),
    Mapper183(Mapper183),
    Mapper212(Mapper212),
    Mapper222(Mapper222),
    Mapper235(Mapper235),
    Mapper272(Mapper272),
    Mapper330(Mapper330),
    Mapper91(Mapper91),
    JyAsic(JyAsic),
}

impl Mapper {
    pub open spec fn wf(&self) -> bool {
        match self {
            Mapper::Nrom(m) => m.wf(),
            Mapper::Unrom(m) => m.wf(),
            Mapper::Cnrom(m) => m.wf(),
            Mapper::Axrom(m) => m.wf(),
            Mapper::ColorDreams(m) => m.wf(),
            Mapper::Gxrom(m) => m.wf(),
            Mapper::Codemasters(m) => m.wf(),
            Mapper::Bf9096(m) => m.wf(),
            Mapper::Cprom(m) => m.wf(),
            Mapper::Bandai74161(m) => m.wf(),
            Mapper::Mapper36(m) => true,
            Mapper::Mapper81(m) => m.wf(),
            Mapper::Mapper8(m) => true,
            Mapper::Mapper99(m) => true,
            Mapper::Mapper29(m) => m.wf(),
            Mapper::UnlPci556(m) => m.wf(),
            Mapper::Mapper72(m) => m.wf(),
            Mapper::Mapper122(m) => m.wf(),
            Mapper::Mapper79(m) => m.wf(),
            Mapper::Mapper107(m) => m.wf(),
            Mapper::Mapper92(m) => m.wf(),
            Mapper::JalecoJf11_14(m) => m.wf(),
            Mapper::Mapper203(m) => m.wf(),
            Mapper::Mapper185(m) => m.wf(),
            Mapper::Mapper188(m) => m.wf(),
            Mapper::Mapper193(m) => true,
            Mapper::Mapper186(m) => m.wf(),
            Mapper::Mapper218(m) => m.wf(),
            Mapper::Bnrom(m) => m.wf(),
            Mapper::Nina01(m) => m.wf(),
            Mapper::Sachen133(m) => m.wf(),
            Mapper::SachenSa0161m(m) => m.wf(),
            Mapper::Sachen149(m) => m.wf(),
            Mapper::Sachen8259(m) => m.wf(),
            Mapper::Sachen74Ls374N(m) => m.wf(),
            Mapper::Sunsoft4(m) => m.wf(),
            Mapper::Sunsoft184(m) => m.wf(),
            Mapper::Sunsoft89(m) => m.wf(),
            Mapper::Mapper271(m) => true,
            Mapper::Mapper285(m) => m.wf(),
            Mapper::Mapper310(m) => true,
            Mapper::Mapper319(m) => true,
            Mapper::Mapper326(m) => true,
            Mapper::Mapper156(m) => m.wf(),
            Mapper::Subor166(m) => true,
            Mapper::NanjingMapper(m) => m.wf(),
            Mapper::Ntdec112(m) => m.wf(),
            Mapper::Tf1201(m) => m.wf(),
            Mapper::TxcMapper(m) => m.wf(),
            Mapper::Namco118(m) => m.wf(),
            Mapper::Namco108Mapper95(m) => m.wf(),
            Mapper::Namco108Mapper206(m) => m.wf(),
            Mapper::Namco108Mapper154(m) => m.wf(),
            Mapper::Mapper103(m) => m.wf(),
            Mapper::Mapper120(m) => m.wf(),
            Mapper::Mapper104(m) => m.wf(),
            Mapper::Mapper108(m) => m.wf(),
            Mapper::Mapper190(m) => m.wf(),
            Mapper::Mapper168(m) => m.wf(),
            Mapper::Mapper170(m) => m.wf(),
            Mapper::Mapper177(m) => true,
            Mapper::Mapper230(m) => m.wf(),
            Mapper::Mapper233(m) => m.wf(),
            Mapper::Mapper116(m) => m.wf(),
            Mapper::TaitoTc0190(m) => m.wf(),
            Mapper::TaitoX1005(m) => m.wf(),
            Mapper::TaitoX1017(m) => m.wf(),
            Mapper::ActionEnterprises(m) => m.wf(),
            Mapper::AddrLatch16k(m) => m.wf(),
            Mapper::BandaiFcg(m) => m.wf(),
            Mapper::Mapper15(m) => true,
            Mapper::Action53(m) => m.wf(),
            Mapper::Mapper53(m) => true,
            Mapper::Mapper51(m) => m.wf(),
            Mapper::Mapper57(m) => true,
            Mapper::Mapper63(m) => true,
            Mapper::Mapper128(m) => true,
            Mapper::Mapper226(m) => true,
            Mapper::Mapper240(m) => true,
            Mapper::Mapper241(m) => true,
            Mapper::Mapper244(m) => true,
            Mapper::Mapper246(m) => m.wf(),
            Mapper::Mapper236(m) => true,
            Mapper::Mapper237(m) => true,
            Mapper::Mapper31(m) => true,
            Mapper::Mapper96(m) => m.wf(),
            Mapper::Nina03_06(m) => true,
            Mapper::Caltron41(m) => m.wf(),
            Mapper::ColorDreams46(m) => true,
            Mapper::Mapper151(m) => m.wf(),
            Mapper::JalecoJf16(m) => m.wf(),
            Mapper::JalecoJfxx(m) => true,
            Mapper::JalecoJf13(m) => true,
            Mapper::UnromVariantMapper(m) => m.wf(),
            Mapper::IremG101(m) => m.wf(),
            Mapper::IremLrog017(m) => m.wf(),
            Mapper::IremTamS1(m) => m.wf(),
            Mapper::Vrc1(m) => m.wf(),
            Mapper::Mapper18(m) => m.wf(),
            Mapper::Mapper40(m) => true,
            Mapper::Mapper42(m) => m.wf(),
            Mapper::Mapper50(m) => true,
            Mapper::Mapper65(m) => m.wf(),
            Mapper::Mapper67(m) => m.wf(),
            Mapper::Mapper73(m) => m.wf(),
            Mapper::Mapper117(m) => m.wf(),
            Mapper::Mapper175(m) => true,
            Mapper::Mapper234(m) => true,
            Mapper::Mapper60(m) => true,
            Mapper::Mapper83(m) => m.wf(),
            Mapper::Mapper183(m) => m.wf(),
            Mapper::Mapper212(m) => true,
            Mapper::Mapper222(m) => m.wf(),
            Mapper::Mapper235(m) => m.wf(),
            Mapper::Mapper272(m) => m.wf(),
            Mapper::Mapper330(m) => m.wf(),
            Mapper::Mapper91(m) => m.wf(),
            Mapper::JyAsic(m) => m.wf(),
        }
    }

    pub open spec fn prg_index_spec(&self, addr: u16) -> usize {
        match self {
            Mapper::Nrom(m) => m.prg_index(addr),
            Mapper::Unrom(m) => m.prg_index(addr),
            Mapper::Cnrom(m) => m.prg_index(addr),
            Mapper::Axrom(m) => m.prg_index(addr),
            Mapper::ColorDreams(m) => m.prg_index(addr),
            Mapper::Gxrom(m) => m.prg_index(addr),
            Mapper::Codemasters(m) => m.prg_index(addr),
            Mapper::Bf9096(m) => m.prg_index(addr),
            Mapper::Cprom(m) => m.prg_index(addr),
            Mapper::Bandai74161(m) => m.prg_index(addr),
            Mapper::Mapper36(m) => m.prg_index(addr),
            Mapper::Mapper81(m) => m.prg_index(addr),
            Mapper::Mapper8(m) => m.prg_index(addr),
            Mapper::Mapper99(m) => m.prg_index(addr),
            Mapper::Mapper29(m) => m.prg_index(addr),
            Mapper::UnlPci556(m) => m.prg_index(addr),
            _ => self.prg_index_spec_1(addr),
        }
    }

    pub open spec fn prg_index_spec_1(&self, addr: u16) -> usize {
        match self {
            Mapper::Mapper72(m) => m.prg_index(addr),
            Mapper::Mapper122(m) => m.prg_index(addr),
            Mapper::Mapper79(m) => m.prg_index(addr),
            Mapper::Mapper107(m) => m.prg_index(addr),
            Mapper::Mapper92(m) => m.prg_index(addr),
            Mapper::JalecoJf11_14(m) => m.prg_index(addr),
            Mapper::Mapper203(m) => m.prg_index(addr),
            Mapper::Mapper185(m) => m.prg_index(addr),
            Mapper::Mapper188(m) => m.prg_index(addr),
            Mapper::Mapper193(m) => m.prg_index(addr),
            Mapper::Mapper186(m) => m.prg_index(addr),
            Mapper::Mapper218(m) => m.prg_index(addr),
            Mapper::Bnrom(m) => m.prg_index(addr),
            Mapper::Nina01(m) => m.prg_index(addr),
            Mapper::Sachen133(m) => m.prg_index(addr),
            Mapper::SachenSa0161m(m) => m.prg_index(addr),
            _ => self.prg_index_spec_2(addr),
        }
    }

    pub open spec fn prg_index_spec_2(&self, addr: u16) -> usize {
        match self {
            Mapper::Sachen149(m) => m.prg_index(addr),
            Mapper::Sachen8259(m) => m.prg_index(addr),
            Mapper::Sachen74Ls374N(m) => m.prg_index(addr),
            Mapper::Sunsoft4(m) => m.prg_index(addr),
            Mapper::Sunsoft184(m) => m.prg_index(addr),
            Mapper::Sunsoft89(m) => m.prg_index(addr),
            Mapper::Mapper271(m) => m.prg_index(addr),
            Mapper::Mapper285(m) => m.prg_index(addr),
            Mapper::Mapper310(m) => m.prg_index(addr),
            Mapper::Mapper319(m) => m.prg_index(addr),
            Mapper::Mapper326(m) => m.prg_index(addr),
            Mapper::Mapper156(m) => m.prg_index(addr),
            Mapper::Subor166(m) => m.prg_index(addr),
            Mapper::NanjingMapper(m) => m.prg_index(addr),
            Mapper::Ntdec112(m) => m.prg_index(addr),
            Mapper::Tf1201(m) => m.prg_index(addr),
            _ => self.prg_index_spec_3(addr),
        }
    }

    pub open spec fn prg_index_spec_3(&self, addr: u16) -> usize {
        match self {
            Mapper::TxcMapper(m) => m.prg_index(addr),
            Mapper::Namco118(m) => m.prg_index(addr),
            Mapper::Namco108Mapper95(m) => m.prg_index(addr),
            Mapper::Namco108Mapper206(m) => m.prg_index(addr),
            Mapper::Namco108Mapper154(m) => m.prg_index(addr),
            Mapper::Mapper103(m) => m.prg_index(addr),
            Mapper::Mapper120(m) => m.prg_index(addr),
            Mapper::Mapper104(m) => m.prg_index(addr),
            Mapper::Mapper108(m) => m.prg_index(addr),
            Mapper::Mapper190(m) => m.prg_index(addr),
            Mapper::Mapper168(m) => m.prg_index(addr),
            Mapper::Mapper170(m) => m.prg_index(addr),
            Mapper::Mapper177(m) => m.prg_index(addr),
            Mapper::Mapper230(m) => m.prg_index(addr),
            Mapper::Mapper233(m) => m.prg_index(addr),
            Mapper::Mapper116(m) => m.prg_index(addr),
            _ => self.prg_index_spec_4(addr),
        }
    }

    pub open spec fn prg_index_spec_4(&self, addr: u16) -> usize {
        match self {
            Mapper::TaitoTc0190(m) => m.prg_index(addr),
            Mapper::TaitoX1005(m) => m.prg_index(addr),
            Mapper::TaitoX1017(m) => m.prg_index(addr),
            Mapper::ActionEnterprises(m) => m.prg_index(addr),
            Mapper::AddrLatch16k(m) => m.prg_index(addr),
            Mapper::BandaiFcg(m) => m.prg_index(addr),
            Mapper::Mapper15(m) => m.prg_index(addr),
            Mapper::Action53(m) => m.prg_index(addr),
            Mapper::Mapper53(m) => m.prg_index(addr),
            Mapper::Mapper51(m) => m.prg_index(addr),
            Mapper::Mapper57(m) => m.prg_index(addr),
            Mapper::Mapper63(m) => m.prg_index(addr),
            Mapper::Mapper128(m) => m.prg_index(addr),
            Mapper::Mapper226(m) => m.prg_index(addr),
            Mapper::Mapper240(m) => m.prg_index(addr),
            Mapper::Mapper241(m) => m.prg_index(addr),
            _ => self.prg_index_spec_5(addr),
        }
    }

    pub open spec fn prg_index_spec_5(&self, addr: u16) -> usize {
        match self {
            Mapper::Mapper244(m) => m.prg_index(addr),
            Mapper::Mapper246(m) => m.prg_index(addr),
            Mapper::Mapper236(m) => m.prg_index(addr),
            Mapper::Mapper237(m) => m.prg_index(addr),
            Mapper::Mapper31(m) => m.prg_index(addr),
            Mapper::Mapper96(m) => m.prg_index(addr),
            Mapper::Nina03_06(m) => m.prg_index(addr),
            Mapper::Caltron41(m) => m.prg_index(addr),
            Mapper::ColorDreams46(m) => m.prg_index(addr),
            Mapper::Mapper151(m) => m.prg_index(addr),
            Mapper::JalecoJf16(m) => m.prg_index(addr),
            Mapper::JalecoJfxx(m) => m.prg_index(addr),
            Mapper::JalecoJf13(m) => m.prg_index(addr),
            Mapper::UnromVariantMapper(m) => m.prg_index(addr),
            Mapper::IremG101(m) => m.prg_index(addr),
            Mapper::IremLrog017(m) => m.prg_index(addr),
            _ => self.prg_index_spec_6(addr),
        }
    }

    pub open spec fn prg_index_spec_6(&self, addr: u16) -> usize {
        match self {
            Mapper::IremTamS1(m) => m.prg_index(addr),
            Mapper::Vrc1(m) => m.prg_index(addr),
            Mapper::Mapper18(m) => m.prg_index(addr),
            Mapper::Mapper40(m) => m.prg_index(addr),
            Mapper::Mapper42(m) => m.prg_index(addr),
            Mapper::Mapper50(m) => m.prg_index(addr),
            Mapper::Mapper65(m) => m.prg_index(addr),
            Mapper::Mapper67(m) => m.prg_index(addr),
            Mapper::Mapper73(m) => m.prg_index(addr),
            Mapper::Mapper117(m) => m.prg_index(addr),
            Mapper::Mapper175(m) => m.prg_index(addr),
            Mapper::Mapper234(m) => m.prg_index(addr),
            Mapper::Mapper60(m) => m.prg_index(addr),
            Mapper::Mapper83(m) => m.prg_index(addr),
            Mapper::Mapper183(m) => m.prg_index(addr),
            Mapper::Mapper212(m) => m.prg_index(addr),
            _ => self.prg_index_spec_7(addr),
        }
    }

    pub open spec fn prg_index_spec_7(&self, addr: u16) -> usize {
        match self {
            Mapper::Mapper222(m) => m.prg_index(addr),
            Mapper::Mapper235(m) => m.prg_index(addr),
            Mapper::Mapper272(m) => m.prg_index(addr),
            Mapper::Mapper330(m) => m.prg_index(addr),
            Mapper::Mapper91(m) => m.prg_index(addr),
            Mapper::JyAsic(m) => m.prg_index(addr),
            _ => 0usize,
        }
    }

    /// PRG-ROM byte index for a CPU address in $8000-$FFFF.
    pub fn prg_index(&self, addr: u16) -> (r: usize)
        requires self.wf(), addr >= 0x8000,
        ensures r == self.prg_index_spec(addr),
    {
        match self {
            Mapper::Nrom(m) => m.prg_index(addr),
            Mapper::Unrom(m) => m.prg_index(addr),
            Mapper::Cnrom(m) => m.prg_index(addr),
            Mapper::Axrom(m) => m.prg_index(addr),
            Mapper::ColorDreams(m) => m.prg_index(addr),
            Mapper::Gxrom(m) => m.prg_index(addr),
            Mapper::Codemasters(m) => m.prg_index(addr),
            Mapper::Bf9096(m) => m.prg_index(addr),
            Mapper::Cprom(m) => m.prg_index(addr),
            Mapper::Bandai74161(m) => m.prg_index(addr),
            Mapper::Mapper36(m) => m.prg_index(addr),
            Mapper::Mapper81(m) => m.prg_index(addr),
            Mapper::Mapper8(m) => m.prg_index(addr),
            Mapper::Mapper99(m) => m.prg_index(addr),
            Mapper::Mapper29(m) => m.prg_index(addr),
            Mapper::UnlPci556(m) => m.prg_index(addr),
            _ => self.prg_index_1(addr),
        }
    }

    fn prg_index_1(&self, addr: u16) -> (r: usize)
        requires self.wf(), addr >= 0x8000,
        ensures r == self.prg_index_spec_1(addr),
    {
        match self {
            Mapper::Mapper72(m) => m.prg_index(addr),
            Mapper::Mapper122(m) => m.prg_index(addr),
            Mapper::Mapper79(m) => m.prg_index(addr),
            Mapper::Mapper107(m) => m.prg_index(addr),
            Mapper::Mapper92(m) => m.prg_index(addr),
            Mapper::JalecoJf11_14(m) => m.prg_index(addr),
            Mapper::Mapper203(m) => m.prg_index(addr),
            Mapper::Mapper185(m) => m.prg_index(addr),
            Mapper::Mapper188(m) => m.prg_index(addr),
            Mapper::Mapper193(m) => m.prg_index(addr),
            Mapper::Mapper186(m) => m.prg_index(addr),
            Mapper::Mapper218(m) => m.prg_index(addr),
            Mapper::Bnrom(m) => m.prg_index(addr),
            Mapper::Nina01(m) => m.prg_index(addr),
            Mapper::Sachen133(m) => m.prg_index(addr),
            Mapper::SachenSa0161m(m) => m.prg_index(addr),
            _ => self.prg_index_2(addr),
        }
    }

    fn prg_index_2(&self, addr: u16) -> (r: usize)
        requires self.wf(), addr >= 0x8000,
        ensures r == self.prg_index_spec_2(addr),
    {
        match self {
            Mapper::Sachen149(m) => m.prg_index(addr),
            Mapper::Sachen8259(m) => m.prg_index(addr),
            Mapper::Sachen74Ls374N(m) => m.prg_index(addr),
            Mapper::Sunsoft4(m) => m.prg_index(addr),
            Mapper::Sunsoft184(m) => m.prg_index(addr),
            Mapper::Sunsoft89(m) => m.prg_index(addr),
            Mapper::Mapper271(m) => m.prg_index(addr),
            Mapper::Mapper285(m) => m.prg_index(addr),
            Mapper::Mapper310(m) => m.prg_index(addr),
            Mapper::Mapper319(m) => m.prg_index(addr),
            Mapper::Mapper326(m) => m.prg_index(addr),
            Mapper::Mapper156(m) => m.prg_index(addr),
            Mapper::Subor166(m) => m.prg_index(addr),
            Mapper::NanjingMapper(m) => m.prg_index(addr),
            Mapper::Ntdec112(m) => m.prg_index(addr),
            Mapper::Tf1201(m) => m.prg_index(addr),
            _ => self.prg_index_3(addr),
        }
    }

    fn prg_index_3(&self, addr: u16) -> (r: usize)
        requires self.wf(), addr >= 0x8000,
        ensures r == self.prg_index_spec_3(addr),
    {
        match self {
            Mapper::TxcMapper(m) => m.prg_index(addr),
            Mapper::Namco118(m) => m.prg_index(addr),
            Mapper::Namco108Mapper95(m) => m.prg_index(addr),
            Mapper::Namco108Mapper206(m) => m.prg_index(addr),
            Mapper::Namco108Mapper154(m) => m.prg_index(addr),
            Mapper::Mapper103(m) => m.prg_index(addr),
            Mapper::Mapper120(m) => m.prg_index(addr),
            Mapper::Mapper104(m) => m.prg_index(addr),
            Mapper::Mapper108(m) => m.prg_index(addr),
            Mapper::Mapper190(m) => m.prg_index(addr),
            Mapper::Mapper168(m) => m.prg_index(addr),
            Mapper::Mapper170(m) => m.prg_index(addr),
            Mapper::Mapper177(m) => m.prg_index(addr),
            Mapper::Mapper230(m) => m.prg_index(addr),
            Mapper::Mapper233(m) => m.prg_index(addr),
            Mapper::Mapper116(m) => m.prg_index(addr),
            _ => self.prg_index_4(addr),
        }
    }

    fn prg_index_4(&self, addr: u16) -> (r: usize)
        requires self.wf(), addr >= 0x8000,
        ensures r == self.prg_index_spec_4(addr),
    {
        match self {
            Mapper::TaitoTc0190(m) => m.prg_index(addr),
            Mapper::TaitoX1005(m) => m.prg_index(addr),
            Mapper::TaitoX1017(m) => m.prg_index(addr),
            Mapper::ActionEnterprises(m) => m.prg_index(addr),
            Mapper::AddrLatch16k(m) => m.prg_index(addr),
            Mapper::BandaiFcg(m) => m.prg_index(addr),
            Mapper::Mapper15(m) => m.prg_index(addr),
            Mapper::Action53(m) => m.prg_index(addr),
            Mapper::Mapper53(m) => m.prg_index(addr),
            Mapper::Mapper51(m) => m.prg_index(addr),
            Mapper::Mapper57(m) => m.prg_index(addr),
            Mapper::Mapper63(m) => m.prg_index(addr),
            Mapper::Mapper128(m) => m.prg_index(addr),
            Mapper::Mapper226(m) => m.prg_index(addr),
            Mapper::Mapper240(m) => m.prg_index(addr),
            Mapper::Mapper241(m) => m.prg_index(addr),
            _ => self.prg_index_5(addr),
        }
    }

    fn prg_index_5(&self, addr: u16) -> (r: usize)
        requires self.wf(), addr >= 0x8000,
        ensures r == self.prg_index_spec_5(addr),
    {
        match self {
            Mapper::Mapper244(m) => m.prg_index(addr),
            Mapper::Mapper246(m) => m.prg_index(addr),
            Mapper::Mapper236(m) => m.prg_index(addr),
            Mapper::Mapper237(m) => m.prg_index(addr),
            Mapper::Mapper31(m) => m.prg_index(addr),
            Mapper::Mapper96(m) => m.prg_index(addr),
            Mapper::Nina03_06(m) => m.prg_index(addr),
            Mapper::Caltron41(m) => m.prg_index(addr),
            Mapper::ColorDreams46(m) => m.prg_index(addr),
            Mapper::Mapper151(m) => m.prg_index(addr),
            Mapper::JalecoJf16(m) => m.prg_index(addr),
            Mapper::JalecoJfxx(m) => m.prg_index(addr),
            Mapper::JalecoJf13(m) => m.prg_index(addr),
            Mapper::UnromVariantMapper(m) => m.prg_index(addr),
            Mapper::IremG101(m) => m.prg_index(addr),
            Mapper::IremLrog017(m) => m.prg_index(addr),
            _ => self.prg_index_6(addr),
        }
    }

    fn prg_index_6(&self, addr: u16) -> (r: usize)
        requires self.wf(), addr >= 0x8000,
        ensures r == self.prg_index_spec_6(addr),
    {
        match self {
            Mapper::IremTamS1(m) => m.prg_index(addr),
            Mapper::Vrc1(m) => m.prg_index(addr),
            Mapper::Mapper18(m) => m.prg_index(addr),
            Mapper::Mapper40(m) => m.prg_index(addr),
            Mapper::Mapper42(m) => m.prg_index(addr),
            Mapper::Mapper50(m) => m.prg_index(addr),
            Mapper::Mapper65(m) => m.prg_index(addr),
            Mapper::Mapper67(m) => m.prg_index(addr),
            Mapper::Mapper73(m) => m.prg_index(addr),
            Mapper::Mapper117(m) => m.prg_index(addr),
            Mapper::Mapper175(m) => m.prg_index(addr),
            Mapper::Mapper234(m) => m.prg_index(addr),
            Mapper::Mapper60(m) => m.prg_index(addr),
            Mapper::Mapper83(m) => m.prg_index(addr),
            Mapper::Mapper183(m) => m.prg_index(addr),
            Mapper::Mapper212(m) => m.prg_index(addr),
            _ => self.prg_index_7(addr),
        }
    }

    fn prg_index_7(&self, addr: u16) -> (r: usize)
        requires self.wf(), addr >= 0x8000,
        ensures r == self.prg_index_spec_7(addr),
    {
        match self {
            Mapper::Mapper222(m) => m.prg_index(addr),
            Mapper::Mapper235(m) => m.prg_index(addr),
            Mapper::Mapper272(m) => m.prg_index(addr),
            Mapper::Mapper330(m) => m.prg_index(addr),
            Mapper::Mapper91(m) => m.prg_index(addr),
            Mapper::JyAsic(m) => m.prg_index(addr),
            _ => 0usize,
        }
    }

    pub open spec fn chr_index_spec(&self, addr: u16) -> usize {
        match self {
            Mapper::Nrom(m) => m.chr_index(addr),
            Mapper::Unrom(m) => m.chr_index(addr),
            Mapper::Cnrom(m) => m.chr_index(addr),
            Mapper::Axrom(m) => m.chr_index(addr),
            Mapper::ColorDreams(m) => m.chr_index(addr),
            Mapper::Gxrom(m) => m.chr_index(addr),
            Mapper::Codemasters(m) => m.chr_index(addr),
            Mapper::Bf9096(m) => m.chr_index(addr),
            Mapper::Cprom(m) => m.chr_index(addr),
            Mapper::Bandai74161(m) => m.chr_index(addr),
            Mapper::Mapper36(m) => m.chr_index(addr),
            Mapper::Mapper81(m) => m.chr_index(addr),
            Mapper::Mapper8(m) => m.chr_index(addr),
            Mapper::Mapper99(m) => m.chr_index(addr),
            Mapper::Mapper29(m) => m.chr_index(addr),
            Mapper::UnlPci556(m) => m.chr_index(addr),
            _ => self.chr_index_spec_1(addr),
        }
    }

    pub open spec fn chr_index_spec_1(&self, addr: u16) -> usize {
        match self {
            Mapper::Mapper72(m) => m.chr_index(addr),
            Mapper::Mapper122(m) => m.chr_index(addr),
            Mapper::Mapper79(m) => m.chr_index(addr),
            Mapper::Mapper107(m) => m.chr_index(addr),
            Mapper::Mapper92(m) => m.chr_index(addr),
            Mapper::JalecoJf11_14(m) => m.chr_index(addr),
            Mapper::Mapper203(m) => m.chr_index(addr),
            Mapper::Mapper185(m) => m.chr_index(addr),
            Mapper::Mapper188(m) => m.chr_index(addr),
            Mapper::Mapper193(m) => m.chr_index(addr),
            Mapper::Mapper186(m) => m.chr_index(addr),
            Mapper::Mapper218(m) => m.chr_index(addr),
            Mapper::Bnrom(m) => m.chr_index(addr),
            Mapper::Nina01(m) => m.chr_index(addr),
            Mapper::Sachen133(m) => m.chr_index(addr),
            Mapper::SachenSa0161m(m) => m.chr_index(addr),
            _ => self.chr_index_spec_2(addr),
        }
    }

    pub open spec fn chr_index_spec_2(&self, addr: u16) -> usize {
        match self {
            Mapper::Sachen149(m) => m.chr_index(addr),
            Mapper::Sachen8259(m) => m.chr_index(addr),
            Mapper::Sachen74Ls374N(m) => m.chr_index(addr),
            Mapper::Sunsoft4(m) => m.chr_index(addr),
            Mapper::Sunsoft184(m) => m.chr_index(addr),
            Mapper::Sunsoft89(m) => m.chr_index(addr),
            Mapper::Mapper271(m) => m.chr_index(addr),
            Mapper::Mapper285(m) => m.chr_index(addr),
            Mapper::Mapper310(m) => m.chr_index(addr),
            Mapper::Mapper319(m) => m.chr_index(addr),
            Mapper::Mapper326(m) => m.chr_index(addr),
            Mapper::Mapper156(m) => m.chr_index(addr),
            Mapper::Subor166(m) => m.chr_index(addr),
            Mapper::NanjingMapper(m) => m.chr_index(addr),
            Mapper::Ntdec112(m) => m.chr_index(addr),
            Mapper::Tf1201(m) => m.chr_index(addr),
            _ => self.chr_index_spec_3(addr),
        }
    }

    pub open spec fn chr_index_spec_3(&self, addr: u16) -> usize {
        match self {
            Mapper::TxcMapper(m) => m.chr_index(addr),
            Mapper::Namco118(m) => m.chr_index(addr),
            Mapper::Namco108Mapper95(m) => m.chr_index(addr),
            Mapper::Namco108Mapper206(m) => m.chr_index(addr),
            Mapper::Namco108Mapper154(m) => m.chr_index(addr),
            Mapper::Mapper103(m) => m.chr_index(addr),
            Mapper::Mapper120(m) => m.chr_index(addr),
            Mapper::Mapper104(m) => m.chr_index(addr),
            Mapper::Mapper108(m) => m.chr_index(addr),
            Mapper::Mapper190(m) => m.chr_index(addr),
            Mapper::Mapper168(m) => m.chr_index(addr),
            Mapper::Mapper170(m) => m.chr_index(addr),
            Mapper::Mapper177(m) => m.chr_index(addr),
            Mapper::Mapper230(m) => m.chr_index(addr),
            Mapper::Mapper233(m) => m.chr_index(addr),
            Mapper::Mapper116(m) => m.chr_index(addr),
            _ => self.chr_index_spec_4(addr),
        }
    }

    pub open spec fn chr_index_spec_4(&self, addr: u16) -> usize {
        match self {
            Mapper::TaitoTc0190(m) => m.chr_index(addr),
            Mapper::TaitoX1005(m) => m.chr_index(addr),
            Mapper::TaitoX1017(m) => m.chr_index(addr),
            Mapper::ActionEnterprises(m) => m.chr_index(addr),
            Mapper::AddrLatch16k(m) => m.chr_index(addr),
            Mapper::BandaiFcg(m) => m.chr_index(addr),
            Mapper::Mapper15(m) => m.chr_index(addr),
            Mapper::Action53(m) => m.chr_index(addr),
            Mapper::Mapper53(m) => m.chr_index(addr),
            Mapper::Mapper51(m) => m.chr_index(addr),
            Mapper::Mapper57(m) => m.chr_index(addr),
            Mapper::Mapper63(m) => m.chr_index(addr),
            Mapper::Mapper128(m) => m.chr_index(addr),
            Mapper::Mapper226(m) => m.chr_index(addr),
            Mapper::Mapper240(m) => m.chr_index(addr),
            Mapper::Mapper241(m) => m.chr_index(addr),
            _ => self.chr_index_spec_5(addr),
        }
    }

    pub open spec fn chr_index_spec_5(&self, addr: u16) -> usize {
        match self {
            Mapper::Mapper244(m) => m.chr_index(addr),
            Mapper::Mapper246(m) => m.chr_index(addr),
            Mapper::Mapper236(m) => m.chr_index(addr),
            Mapper::Mapper237(m) => m.chr_index(addr),
            Mapper::Mapper31(m) => m.chr_index(addr),
            Mapper::Mapper96(m) => m.chr_index(addr),
            Mapper::Nina03_06(m) => m.chr_index(addr),
            Mapper::Caltron41(m) => m.chr_index(addr),
            Mapper::ColorDreams46(m) => m.chr_index(addr),
            Mapper::Mapper151(m) => m.chr_index(addr),
            Mapper::JalecoJf16(m) => m.chr_index(addr),
            Mapper::JalecoJfxx(m) => m.chr_index(addr),
            Mapper::JalecoJf13(m) => m.chr_index(addr),
            Mapper::UnromVariantMapper(m) => m.chr_index(addr),
            Mapper::IremG101(m) => m.chr_index(addr),
            Mapper::IremLrog017(m) => m.chr_index(addr),
            _ => self.chr_index_spec_6(addr),
        }
    }

    pub open spec fn chr_index_spec_6(&self, addr: u16) -> usize {
        match self {
            Mapper::IremTamS1(m) => m.chr_index(addr),
            Mapper::Vrc1(m) => m.chr_index(addr),
            Mapper::Mapper18(m) => m.chr_index(addr),
            Mapper::Mapper40(m) => m.chr_index(addr),
            Mapper::Mapper42(m) => m.chr_index(addr),
            Mapper::Mapper50(m) => m.chr_index(addr),
            Mapper::Mapper65(m) => m.chr_index(addr),
            Mapper::Mapper67(m) => m.chr_index(addr),
            Mapper::Mapper73(m) => m.chr_index(addr),
            Mapper::Mapper117(m) => m.chr_index(addr),
            Mapper::Mapper175(m) => m.chr_index(addr),
            Mapper::Mapper234(m) => m.chr_index(addr),
            Mapper::Mapper60(m) => m.chr_index(addr),
            Mapper::Mapper83(m) => m.chr_index(addr),
            Mapper::Mapper183(m) => m.chr_index(addr),
            Mapper::Mapper212(m) => m.chr_index(addr),
            _ => self.chr_index_spec_7(addr),
        }
    }

    pub open spec fn chr_index_spec_7(&self, addr: u16) -> usize {
        match self {
            Mapper::Mapper222(m) => m.chr_index(addr),
            Mapper::Mapper235(m) => m.chr_index(addr),
            Mapper::Mapper272(m) => m.chr_index(addr),
            Mapper::Mapper330(m) => m.chr_index(addr),
            Mapper::Mapper91(m) => m.chr_index(addr),
            Mapper::JyAsic(m) => m.chr_index(addr),
            _ => 0usize,
        }
    }

    /// CHR byte index for a PPU pattern address.
    pub fn chr_index(&self, addr: u16) -> (r: usize)
        requires self.wf(), addr < 0x2000,
        ensures r == self.chr_index_spec(addr),
    {
        match self {
            Mapper::Nrom(m) => m.chr_index(addr),
            Mapper::Unrom(m) => m.chr_index(addr),
            Mapper::Cnrom(m) => m.chr_index(addr),
            Mapper::Axrom(m) => m.chr_index(addr),
            Mapper::ColorDreams(m) => m.chr_index(addr),
            Mapper::Gxrom(m) => m.chr_index(addr),
            Mapper::Codemasters(m) => m.chr_index(addr),
            Mapper::Bf9096(m) => m.chr_index(addr),
            Mapper::Cprom(m) => m.chr_index(addr),
            Mapper::Bandai74161(m) => m.chr_index(addr),
            Mapper::Mapper36(m) => m.chr_index(addr),
            Mapper::Mapper81(m) => m.chr_index(addr),
            Mapper::Mapper8(m) => m.chr_index(addr),
            Mapper::Mapper99(m) => m.chr_index(addr),
            Mapper::Mapper29(m) => m.chr_index(addr),
            Mapper::UnlPci556(m) => m.chr_index(addr),
            _ => self.chr_index_1(addr),
        }
    }

    fn chr_index_1(&self, addr: u16) -> (r: usize)
        requires self.wf(), addr < 0x2000,
        ensures r == self.chr_index_spec_1(addr),
    {
        match self {
            Mapper::Mapper72(m) => m.chr_index(addr),
            Mapper::Mapper122(m) => m.chr_index(addr),
            Mapper::Mapper79(m) => m.chr_index(addr),
            Mapper::Mapper107(m) => m.chr_index(addr),
            Mapper::Mapper92(m) => m.chr_index(addr),
            Mapper::JalecoJf11_14(m) => m.chr_index(addr),
            Mapper::Mapper203(m) => m.chr_index(addr),
            Mapper::Mapper185(m) => m.chr_index(addr),
            Mapper::Mapper188(m) => m.chr_index(addr),
            Mapper::Mapper193(m) => m.chr_index(addr),
            Mapper::Mapper186(m) => m.chr_index(addr),
            Mapper::Mapper218(m) => m.chr_index(addr),
            Mapper::Bnrom(m) => m.chr_index(addr),
            Mapper::Nina01(m) => m.chr_index(addr),
            Mapper::Sachen133(m) => m.chr_index(addr),
            Mapper::SachenSa0161m(m) => m.chr_index(addr),
            _ => self.chr_index_2(addr),
        }
    }

    fn chr_index_2(&self, addr: u16) -> (r: usize)
        requires self.wf(), addr < 0x2000,
        ensures r == self.chr_index_spec_2(addr),
    {
        match self {
            Mapper::Sachen149(m) => m.chr_index(addr),
            Mapper::Sachen8259(m) => m.chr_index(addr),
            Mapper::Sachen74Ls374N(m) => m.chr_index(addr),
            Mapper::Sunsoft4(m) => m.chr_index(addr),
            Mapper::Sunsoft184(m) => m.chr_index(addr),
            Mapper::Sunsoft89(m) => m.chr_index(addr),
            Mapper::Mapper271(m) => m.chr_index(addr),
            Mapper::Mapper285(m) => m.chr_index(addr),
            Mapper::Mapper310(m) => m.chr_index(addr),
            Mapper::Mapper319(m) => m.chr_index(addr),
            Mapper::Mapper326(m) => m.chr_index(addr),
            Mapper::Mapper156(m) => m.chr_index(addr),
            Mapper::Subor166(m) => m.chr_index(addr),
            Mapper::NanjingMapper(m) => m.chr_index(addr),
            Mapper::Ntdec112(m) => m.chr_index(addr),
            Mapper::Tf1201(m) => m.chr_index(addr),
            _ => self.chr_index_3(addr),
        }
    }

    fn chr_index_3(&self, addr: u16) -> (r: usize)
        requires self.wf(), addr < 0x2000,
        ensures r == self.chr_index_spec_3(addr),
    {
        match self {
            Mapper::TxcMapper(m) => m.chr_index(addr),
            Mapper::Namco118(m) => m.chr_index(addr),
            Mapper::Namco108Mapper95(m) => m.chr_index(addr),
            Mapper::Namco108Mapper206(m) => m.chr_index(addr),
            Mapper::Namco108Mapper154(m) => m.chr_index(addr),
            Mapper::Mapper103(m) => m.chr_index(addr),
            Mapper::Mapper120(m) => m.chr_index(addr),
            Mapper::Mapper104(m) => m.chr_index(addr),
            Mapper::Mapper108(m) => m.chr_index(addr),
            Mapper::Mapper190(m) => m.chr_index(addr),
            Mapper::Mapper168(m) => m.chr_index(addr),
            Mapper::Mapper170(m) => m.chr_index(addr),
            Mapper::Mapper177(m) => m.chr_index(addr),
            Mapper::Mapper230(m) => m.chr_index(addr),
            Mapper::Mapper233(m) => m.chr_index(addr),
            Mapper::Mapper116(m) => m.chr_index(addr),
            _ => self.chr_index_4(addr),
        }
    }

    fn chr_index_4(&self, addr: u16) -> (r: usize)
        requires self.wf(), addr < 0x2000,
        ensures r == self.chr_index_spec_4(addr),
    {
        match self {
            Mapper::TaitoTc0190(m) => m.chr_index(addr),
            Mapper::TaitoX1005(m) => m.chr_index(addr),
            Mapper::TaitoX1017(m) => m.chr_index(addr),
            Mapper::ActionEnterprises(m) => m.chr_index(addr),
            Mapper::AddrLatch16k(m) => m.chr_index(addr),
            Mapper::BandaiFcg(m) => m.chr_index(addr),
            Mapper::Mapper15(m) => m.chr_index(addr),
            Mapper::Action53(m) => m.chr_index(addr),
            Mapper::Mapper53(m) => m.chr_index(addr),
            Mapper::Mapper51(m) => m.chr_index(addr),
            Mapper::Mapper57(m) => m.chr_index(addr),
            Mapper::Mapper63(m) => m.chr_index(addr),
            Mapper::Mapper128(m) => m.chr_index(addr),
            Mapper::Mapper226(m) => m.chr_index(addr),
            Mapper::Mapper240(m) => m.chr_index(addr),
            Mapper::Mapper241(m) => m.chr_index(addr),
            _ => self.chr_index_5(addr),
        }
    }

    fn chr_index_5(&self, addr: u16) -> (r: usize)
        requires self.wf(), addr < 0x2000,
        ensures r == self.chr_index_spec_5(addr),
    {
        match self {
            Mapper::Mapper244(m) => m.chr_index(addr),
            Mapper::Mapper246(m) => m.chr_index(addr),
            Mapper::Mapper236(m) => m.chr_index(addr),
            Mapper::Mapper237(m) => m.chr_index(addr),
            Mapper::Mapper31(m) => m.chr_index(addr),
            Mapper::Mapper96(m) => m.chr_index(addr),
            Mapper::Nina03_06(m) => m.chr_index(addr),
            Mapper::Caltron41(m) => m.chr_index(addr),
            Mapper::ColorDreams46(m) => m.chr_index(addr),
            Mapper::Mapper151(m) => m.chr_index(addr),
            Mapper::JalecoJf16(m) => m.chr_index(addr),
            Mapper::JalecoJfxx(m) => m.chr_index(addr),
            Mapper::JalecoJf13(m) => m.chr_index(addr),
            Mapper::UnromVariantMapper(m) => m.chr_index(addr),
            Mapper::IremG101(m) => m.chr_index(addr),
            Mapper::IremLrog017(m) => m.chr_index(addr),
            _ => self.chr_index_6(addr),
        }
    }

    fn chr_index_6(&self, addr: u16) -> (r: usize)
        requires self.wf(), addr < 0x2000,
        ensures r == self.chr_index_spec_6(addr),
    {
        match self {
            Mapper::IremTamS1(m) => m.chr_index(addr),
            Mapper::Vrc1(m) => m.chr_index(addr),
            Mapper::Mapper18(m) => m.chr_index(addr),
            Mapper::Mapper40(m) => m.chr_index(addr),
            Mapper::Mapper42(m) => m.chr_index(addr),
            Mapper::Mapper50(m) => m.chr_index(addr),
            Mapper::Mapper65(m) => m.chr_index(addr),
            Mapper::Mapper67(m) => m.chr_index(addr),
            Mapper::Mapper73(m) => m.chr_index(addr),
            Mapper::Mapper117(m) => m.chr_index(addr),
            Mapper::Mapper175(m) => m.chr_index(addr),
            Mapper::Mapper234(m) => m.chr_index(addr),
            Mapper::Mapper60(m) => m.chr_index(addr),
            Mapper::Mapper83(m) => m.chr_index(addr),
            Mapper::Mapper183(m) => m.chr_index(addr),
            Mapper::Mapper212(m) => m.chr_index(addr),
            _ => self.chr_index_7(addr),
        }
    }

    fn chr_index_7(&self, addr: u16) -> (r: usize)
        requires self.wf(), addr < 0x2000,
        ensures r == self.chr_index_spec_7(addr),
    {
        match self {
            Mapper::Mapper222(m) => m.chr_index(addr),
            Mapper::Mapper235(m) => m.chr_index(addr),
            Mapper::Mapper272(m) => m.chr_index(addr),
            Mapper::Mapper330(m) => m.chr_index(addr),
            Mapper::Mapper91(m) => m.chr_index(addr),
            Mapper::JyAsic(m) => m.chr_index(addr),
            _ => 0usize,
        }
    }

    pub open spec fn mirroring_spec(&self) -> Mirroring {
        match self {
            Mapper::Nrom(m) => m.mirroring(),
            Mapper::Unrom(m) => m.mirroring(),
            Mapper::Cnrom(m) => m.mirroring(),
            Mapper::Axrom(m) => m.mirroring(),
            Mapper::ColorDreams(m) => m.mirroring(),
            Mapper::Gxrom(m) => m.mirroring(),
            Mapper::Codemasters(m) => m.mirroring(),
            Mapper::Bf9096(m) => m.mirroring(),
            Mapper::Cprom(m) => m.mirroring(),
            Mapper::Bandai74161(m) => m.mirroring(),
            Mapper::Mapper36(m) => m.mirroring(),
            Mapper::Mapper81(m) => m.mirroring(),
            Mapper::Mapper8(m) => m.mirroring(),
            Mapper::Mapper99(m) => m.mirroring(),
            Mapper::Mapper29(m) => m.mirroring(),
            Mapper::UnlPci556(m) => m.mirroring(),
            _ => self.mirroring_spec_1(),
        }
    }

    pub open spec fn mirroring_spec_1(&self) -> Mirroring {
        match self {
            Mapper::Mapper72(m) => m.mirroring(),
            Mapper::Mapper122(m) => m.mirroring(),
            Mapper::Mapper79(m) => m.mirroring(),
            Mapper::Mapper107(m) => m.mirroring(),
            Mapper::Mapper92(m) => m.mirroring(),
            Mapper::JalecoJf11_14(m) => m.mirroring(),
            Mapper::Mapper203(m) => m.mirroring(),
            Mapper::Mapper185(m) => m.mirroring(),
            Mapper::Mapper188(m) => m.mirroring(),
            Mapper::Mapper193(m) => m.mirroring(),
            Mapper::Mapper186(m) => m.mirroring(),
            Mapper::Mapper218(m) => m.mirroring(),
            Mapper::Bnrom(m) => m.mirroring(),
            Mapper::Nina01(m) => m.mirroring(),
            Mapper::Sachen133(m) => m.mirroring(),
            Mapper::SachenSa0161m(m) => m.mirroring(),
            _ => self.mirroring_spec_2(),
        }
    }

    pub open spec fn mirroring_spec_2(&self) -> Mirroring {
        match self {
            Mapper::Sachen149(m) => m.mirroring(),
            Mapper::Sachen8259(m) => m.mirroring(),
            Mapper::Sachen74Ls374N(m) => m.mirroring(),
            Mapper::Sunsoft4(m) => m.mirroring(),
            Mapper::Sunsoft184(m) => m.mirroring(),
            Mapper::Sunsoft89(m) => m.mirroring(),
            Mapper::Mapper271(m) => m.mirroring(),
            Mapper::Mapper285(m) => m.mirroring(),
            Mapper::Mapper310(m) => m.mirroring(),
            Mapper::Mapper319(m) => m.mirroring(),
            Mapper::Mapper326(m) => m.mirroring(),
            Mapper::Mapper156(m) => m.mirroring(),
            Mapper::Subor166(m) => m.mirroring(),
            Mapper::NanjingMapper(m) => m.mirroring(),
            Mapper::Ntdec112(m) => m.mirroring(),
            Mapper::Tf1201(m) => m.mirroring(),
            _ => self.mirroring_spec_3(),
        }
    }

    pub open spec fn mirroring_spec_3(&self) -> Mirroring {
        match self {
            Mapper::TxcMapper(m) => m.mirroring(),
            Mapper::Namco118(m) => m.mirroring(),
            Mapper::Namco108Mapper95(m) => m.mirroring(),
            Mapper::Namco108Mapper206(m) => m.mirroring(),
            Mapper::Namco108Mapper154(m) => m.mirroring(),
            Mapper::Mapper103(m) => m.mirroring(),
            Mapper::Mapper120(m) => m.mirroring(),
            Mapper::Mapper104(m) => m.mirroring(),
            Mapper::Mapper108(m) => m.mirroring(),
            Mapper::Mapper190(m) => m.mirroring(),
            Mapper::Mapper168(m) => m.mirroring(),
            Mapper::Mapper170(m) => m.mirroring(),
            Mapper::Mapper177(m) => m.mirroring(),
            Mapper::Mapper230(m) => m.mirroring(),
            Mapper::Mapper233(m) => m.mirroring(),
            Mapper::Mapper116(m) => m.mirroring(),
            _ => self.mirroring_spec_4(),
        }
    }

    pub open spec fn mirroring_spec_4(&self) -> Mirroring {
        match self {
            Mapper::TaitoTc0190(m) => m.mirroring(),
            Mapper::TaitoX1005(m) => m.mirroring(),
            Mapper::TaitoX1017(m) => m.mirroring(),
            Mapper::ActionEnterprises(m) => m.mirroring(),
            Mapper::AddrLatch16k(m) => m.mirroring(),
            Mapper::BandaiFcg(m) => m.mirroring(),
            Mapper::Mapper15(m) => m.mirroring(),
            Mapper::Action53(m) => m.mirroring(),
            Mapper::Mapper53(m) => m.mirroring(),
            Mapper::Mapper51(m) => m.mirroring(),
            Mapper::Mapper57(m) => m.mirroring(),
            Mapper::Mapper63(m) => m.mirroring(),
            Mapper::Mapper128(m) => m.mirroring(),
            Mapper::Mapper226(m) => m.mirroring(),
            Mapper::Mapper240(m) => m.mirroring(),
            Mapper::Mapper241(m) => m.mirroring(),
            _ => self.mirroring_spec_5(),
        }
    }

    pub open spec fn mirroring_spec_5(&self) -> Mirroring {
        match self {
            Mapper::Mapper244(m) => m.mirroring(),
            Mapper::Mapper246(m) => m.mirroring(),
            Mapper::Mapper236(m) => m.mirroring(),
            Mapper::Mapper237(m) => m.mirroring(),
            Mapper::Mapper31(m) => m.mirroring(),
            Mapper::Mapper96(m) => m.mirroring(),
            Mapper::Nina03_06(m) => m.mirroring(),
            Mapper::Caltron41(m) => m.mirroring(),
            Mapper::ColorDreams46(m) => m.mirroring(),
            Mapper::Mapper151(m) => m.mirroring(),
            Mapper::JalecoJf16(m) => m.mirroring(),
            Mapper::JalecoJfxx(m) => m.mirroring(),
            Mapper::JalecoJf13(m) => m.mirroring(),
            Mapper::UnromVariantMapper(m) => m.mirroring(),
            Mapper::IremG101(m) => m.mirroring(),
            Mapper::IremLrog017(m) => m.mirroring(),
            _ => self.mirroring_spec_6(),
        }
    }

    pub open spec fn mirroring_spec_6(&self) -> Mirroring {
        match self {
            Mapper::IremTamS1(m) => m.mirroring(),
            Mapper::Vrc1(m) => m.mirroring(),
            Mapper::Mapper18(m) => m.mirroring(),
            Mapper::Mapper40(m) => m.mirroring(),
            Mapper::Mapper42(m) => m.mirroring(),
            Mapper::Mapper50(m) => m.mirroring(),
            Mapper::Mapper65(m) => m.mirroring(),
            Mapper::Mapper67(m) => m.mirroring(),
            Mapper::Mapper73(m) => m.mirroring(),
            Mapper::Mapper117(m) => m.mirroring(),
            Mapper::Mapper175(m) => m.mirroring(),
            Mapper::Mapper234(m) => m.mirroring(),
            Mapper::Mapper60(m) => m.mirroring(),
            Mapper::Mapper83(m) => m.mirroring(),
            Mapper::Mapper183(m) => m.mirroring(),
            Mapper::Mapper212(m) => m.mirroring(),
            _ => self.mirroring_spec_7(),
        }
    }

    pub open spec fn mirroring_spec_7(&self) -> Mirroring {
        match self {
            Mapper::Mapper222(m) => m.mirroring(),
            Mapper::Mapper235(m) => m.mirroring(),
            Mapper::Mapper272(m) => m.mirroring(),
            Mapper::Mapper330(m) => m.mirroring(),
            Mapper::Mapper91(m) => m.mirroring(),
            Mapper::JyAsic(m) => m.mirroring(),
            _ => Mirroring::Vertical,
        }
    }

    /// The live nametable mirroring.
    pub fn mirroring(&self) -> (r: Mirroring)
        requires self.wf(),
        ensures r == self.mirroring_spec(),
    {
        match self {
            Mapper::Nrom(m) => m.mirroring(),
            Mapper::Unrom(m) => m.mirroring(),
            Mapper::Cnrom(m) => m.mirroring(),
            Mapper::Axrom(m) => m.mirroring(),
            Mapper::ColorDreams(m) => m.mirroring(),
            Mapper::Gxrom(m) => m.mirroring(),
            Mapper::Codemasters(m) => m.mirroring(),
            Mapper::Bf9096(m) => m.mirroring(),
            Mapper::Cprom(m) => m.mirroring(),
            Mapper::Bandai74161(m) => m.mirroring(),
            Mapper::Mapper36(m) => m.mirroring(),
            Mapper::Mapper81(m) => m.mirroring(),
            Mapper::Mapper8(m) => m.mirroring(),
            Mapper::Mapper99(m) => m.mirroring(),
            Mapper::Mapper29(m) => m.mirroring(),
            Mapper::UnlPci556(m) => m.mirroring(),
            _ => self.mirroring_1(),
        }
    }

    fn mirroring_1(&self) -> (r: Mirroring)
        requires self.wf(),
        ensures r == self.mirroring_spec_1(),
    {
        match self {
            Mapper::Mapper72(m) => m.mirroring(),
            Mapper::Mapper122(m) => m.mirroring(),
            Mapper::Mapper79(m) => m.mirroring(),
            Mapper::Mapper107(m) => m.mirroring(),
            Mapper::Mapper92(m) => m.mirroring(),
            Mapper::JalecoJf11_14(m) => m.mirroring(),
            Mapper::Mapper203(m) => m.mirroring(),
            Mapper::Mapper185(m) => m.mirroring(),
            Mapper::Mapper188(m) => m.mirroring(),
            Mapper::Mapper193(m) => m.mirroring(),
            Mapper::Mapper186(m) => m.mirroring(),
            Mapper::Mapper218(m) => m.mirroring(),
            Mapper::Bnrom(m) => m.mirroring(),
            Mapper::Nina01(m) => m.mirroring(),
            Mapper::Sachen133(m) => m.mirroring(),
            Mapper::SachenSa0161m(m) => m.mirroring(),
            _ => self.mirroring_2(),
        }
    }

    fn mirroring_2(&self) -> (r: Mirroring)
        requires self.wf(),
        ensures r == self.mirroring_spec_2(),
    {
        match self {
            Mapper::Sachen149(m) => m.mirroring(),
            Mapper::Sachen8259(m) => m.mirroring(),
            Mapper::Sachen74Ls374N(m) => m.mirroring(),
            Mapper::Sunsoft4(m) => m.mirroring(),
            Mapper::Sunsoft184(m) => m.mirroring(),
            Mapper::Sunsoft89(m) => m.mirroring(),
            Mapper::Mapper271(m) => m.mirroring(),
            Mapper::Mapper285(m) => m.mirroring(),
            Mapper::Mapper310(m) => m.mirroring(),
            Mapper::Mapper319(m) => m.mirroring(),
            Mapper::Mapper326(m) => m.mirroring(),
            Mapper::Mapper156(m) => m.mirroring(),
            Mapper::Subor166(m) => m.mirroring(),
            Mapper::NanjingMapper(m) => m.mirroring(),
            Mapper::Ntdec112(m) => m.mirroring(),
            Mapper::Tf1201(m) => m.mirroring(),
            _ => self.mirroring_3(),
        }
    }

    fn mirroring_3(&self) -> (r: Mirroring)
        requires self.wf(),
        ensures r == self.mirroring_spec_3(),
    {
        match self {
            Mapper::TxcMapper(m) => m.mirroring(),
            Mapper::Namco118(m) => m.mirroring(),
            Mapper::Namco108Mapper95(m) => m.mirroring(),
            Mapper::Namco108Mapper206(m) => m.mirroring(),
            Mapper::Namco108Mapper154(m) => m.mirroring(),
            Mapper::Mapper103(m) => m.mirroring(),
            Mapper::Mapper120(m) => m.mirroring(),
            Mapper::Mapper104(m) => m.mirroring(),
            Mapper::Mapper108(m) => m.mirroring(),
            Mapper::Mapper190(m) => m.mirroring(),
            Mapper::Mapper168(m) => m.mirroring(),
            Mapper::Mapper170(m) => m.mirroring(),
            Mapper::Mapper177(m) => m.mirroring(),
            Mapper::Mapper230(m) => m.mirroring(),
            Mapper::Mapper233(m) => m.mirroring(),
            Mapper::Mapper116(m) => m.mirroring(),
            _ => self.mirroring_4(),
        }
    }

    fn mirroring_4(&self) -> (r: Mirroring)
        requires self.wf(),
        ensures r == self.mirroring_spec_4(),
    {
        match self {
            Mapper::TaitoTc0190(m) => m.mirroring(),
            Mapper::TaitoX1005(m) => m.mirroring(),
            Mapper::TaitoX1017(m) => m.mirroring(),
            Mapper::ActionEnterprises(m) => m.mirroring(),
            Mapper::AddrLatch16k(m) => m.mirroring(),
            Mapper::BandaiFcg(m) => m.mirroring(),
            Mapper::Mapper15(m) => m.mirroring(),
            Mapper::Action53(m) => m.mirroring(),
            Mapper::Mapper53(m) => m.mirroring(),
            Mapper::Mapper51(m) => m.mirroring(),
            Mapper::Mapper57(m) => m.mirroring(),
            Mapper::Mapper63(m) => m.mirroring(),
            Mapper::Mapper128(m) => m.mirroring(),
            Mapper::Mapper226(m) => m.mirroring(),
            Mapper::Mapper240(m) => m.mirroring(),
            Mapper::Mapper241(m) => m.mirroring(),
            _ => self.mirroring_5(),
        }
    }

    fn mirroring_5(&self) -> (r: Mirroring)
        requires self.wf(),
        ensures r == self.mirroring_spec_5(),
    {
        match self {
            Mapper::Mapper244(m) => m.mirroring(),
            Mapper::Mapper246(m) => m.mirroring(),
            Mapper::Mapper236(m) => m.mirroring(),
            Mapper::Mapper237(m) => m.mirroring(),
            Mapper::Mapper31(m) => m.mirroring(),
            Mapper::Mapper96(m) => m.mirroring(),
            Mapper::Nina03_06(m) => m.mirroring(),
            Mapper::Caltron41(m) => m.mirroring(),
            Mapper::ColorDreams46(m) => m.mirroring(),
            Mapper::Mapper151(m) => m.mirroring(),
            Mapper::JalecoJf16(m) => m.mirroring(),
            Mapper::JalecoJfxx(m) => m.mirroring(),
            Mapper::JalecoJf13(m) => m.mirroring(),
            Mapper::UnromVariantMapper(m) => m.mirroring(),
            Mapper::IremG101(m) => m.mirroring(),
            Mapper::IremLrog017(m) => m.mirroring(),
            _ => self.mirroring_6(),
        }
    }

    fn mirroring_6(&self) -> (r: Mirroring)
        requires self.wf(),
        ensures r == self.mirroring_spec_6(),
    {
        match self {
            Mapper::IremTamS1(m) => m.mirroring(),
            Mapper::Vrc1(m) => m.mirroring(),
            Mapper::Mapper18(m) => m.mirroring(),
            Mapper::Mapper40(m) => m.mirroring(),
            Mapper::Mapper42(m) => m.mirroring(),
            Mapper::Mapper50(m) => m.mirroring(),
            Mapper::Mapper65(m) => m.mirroring(),
            Mapper::Mapper67(m) => m.mirroring(),
            Mapper::Mapper73(m) => m.mirroring(),
            Mapper::Mapper117(m) => m.mirroring(),
            Mapper::Mapper175(m) => m.mirroring(),
            Mapper::Mapper234(m) => m.mirroring(),
            Mapper::Mapper60(m) => m.mirroring(),
            Mapper::Mapper83(m) => m.mirroring(),
            Mapper::Mapper183(m) => m.mirroring(),
            Mapper::Mapper212(m) => m.mirroring(),
            _ => self.mirroring_7(),
        }
    }

    fn mirroring_7(&self) -> (r: Mirroring)
        requires self.wf(),
        ensures r == self.mirroring_spec_7(),
    {
        match self {
            Mapper::Mapper222(m) => m.mirroring(),
            Mapper::Mapper235(m) => m.mirroring(),
            Mapper::Mapper272(m) => m.mirroring(),
            Mapper::Mapper330(m) => m.mirroring(),
            Mapper::Mapper91(m) => m.mirroring(),
            Mapper::JyAsic(m) => m.mirroring(),
            _ => Mirroring::Vertical,
        }
    }

    pub open spec fn has_bus_conflicts_spec(&self) -> bool {
        match self {
            Mapper::Nrom(m) => false,
            Mapper::Unrom(m) => false,
            Mapper::Cnrom(m) => false,
            Mapper::Axrom(m) => false,
            Mapper::ColorDreams(m) => false,
            Mapper::Gxrom(m) => false,
            Mapper::Codemasters(m) => false,
            Mapper::Bf9096(m) => false,
            Mapper::Cprom(m) => false,
            Mapper::Bandai74161(m) => false,
            Mapper::Mapper36(m) => m.has_bus_conflicts(),
            Mapper::Mapper81(m) => false,
            Mapper::Mapper8(m) => false,
            Mapper::Mapper99(m) => false,
            Mapper::Mapper29(m) => false,
            Mapper::UnlPci556(m) => false,
            _ => self.has_bus_conflicts_spec_1(),
        }
    }

    pub open spec fn has_bus_conflicts_spec_1(&self) -> bool {
        match self {
            Mapper::Mapper72(m) => false,
            Mapper::Mapper122(m) => false,
            Mapper::Mapper79(m) => false,
            Mapper::Mapper107(m) => false,
            Mapper::Mapper92(m) => false,
            Mapper::JalecoJf11_14(m) => false,
            Mapper::Mapper203(m) => false,
            Mapper::Mapper185(m) => false,
            Mapper::Mapper188(m) => false,
            Mapper::Mapper193(m) => false,
            Mapper::Mapper186(m) => false,
            Mapper::Mapper218(m) => false,
            Mapper::Bnrom(m) => m.has_bus_conflicts(),
            Mapper::Nina01(m) => false,
            Mapper::Sachen133(m) => false,
            Mapper::SachenSa0161m(m) => false,
            _ => self.has_bus_conflicts_spec_2(),
        }
    }

    pub open spec fn has_bus_conflicts_spec_2(&self) -> bool {
        match self {
            Mapper::Sachen149(m) => false,
            Mapper::Sachen8259(m) => false,
            Mapper::Sachen74Ls374N(m) => false,
            Mapper::Sunsoft4(m) => false,
            Mapper::Sunsoft184(m) => false,
            Mapper::Sunsoft89(m) => false,
            Mapper::Mapper271(m) => false,
            Mapper::Mapper285(m) => false,
            Mapper::Mapper310(m) => false,
            Mapper::Mapper319(m) => false,
            Mapper::Mapper326(m) => false,
            Mapper::Mapper156(m) => false,
            Mapper::Subor166(m) => false,
            Mapper::NanjingMapper(m) => false,
            Mapper::Ntdec112(m) => false,
            Mapper::Tf1201(m) => false,
            _ => self.has_bus_conflicts_spec_3(),
        }
    }

    pub open spec fn has_bus_conflicts_spec_3(&self) -> bool {
        match self {
            Mapper::TxcMapper(m) => false,
            Mapper::Namco118(m) => false,
            Mapper::Namco108Mapper95(m) => false,
            Mapper::Namco108Mapper206(m) => false,
            Mapper::Namco108Mapper154(m) => false,
            Mapper::Mapper103(m) => false,
            Mapper::Mapper120(m) => false,
            Mapper::Mapper104(m) => false,
            Mapper::Mapper108(m) => false,
            Mapper::Mapper190(m) => false,
            Mapper::Mapper168(m) => false,
            Mapper::Mapper170(m) => false,
            Mapper::Mapper177(m) => false,
            Mapper::Mapper230(m) => false,
            Mapper::Mapper233(m) => false,
            Mapper::Mapper116(m) => false,
            _ => self.has_bus_conflicts_spec_4(),
        }
    }

    pub open spec fn has_bus_conflicts_spec_4(&self) -> bool {
        match self {
            Mapper::TaitoTc0190(m) => false,
            Mapper::TaitoX1005(m) => false,
            Mapper::TaitoX1017(m) => false,
            Mapper::ActionEnterprises(m) => false,
            Mapper::AddrLatch16k(m) => false,
            Mapper::BandaiFcg(m) => false,
            Mapper::Mapper15(m) => false,
            Mapper::Action53(m) => false,
            Mapper::Mapper53(m) => false,
            Mapper::Mapper51(m) => false,
            Mapper::Mapper57(m) => false,
            Mapper::Mapper63(m) => false,
            Mapper::Mapper128(m) => false,
            Mapper::Mapper226(m) => false,
            Mapper::Mapper240(m) => false,
            Mapper::Mapper241(m) => false,
            _ => self.has_bus_conflicts_spec_5(),
        }
    }

    pub open spec fn has_bus_conflicts_spec_5(&self) -> bool {
        match self {
            Mapper::Mapper244(m) => false,
            Mapper::Mapper246(m) => false,
            Mapper::Mapper236(m) => false,
            Mapper::Mapper237(m) => false,
            Mapper::Mapper31(m) => false,
            Mapper::Mapper96(m) => false,
            Mapper::Nina03_06(m) => false,
            Mapper::Caltron41(m) => false,
            Mapper::ColorDreams46(m) => false,
            Mapper::Mapper151(m) => false,
            Mapper::JalecoJf16(m) => m.has_bus_conflicts(),
            Mapper::JalecoJfxx(m) => false,
            Mapper::JalecoJf13(m) => false,
            Mapper::UnromVariantMapper(m) => false,
            Mapper::IremG101(m) => false,
            Mapper::IremLrog017(m) => false,
            _ => self.has_bus_conflicts_spec_6(),
        }
    }

    pub open spec fn has_bus_conflicts_spec_6(&self) -> bool {
        match self {
            Mapper::IremTamS1(m) => false,
            Mapper::Vrc1(m) => false,
            Mapper::Mapper18(m) => false,
            Mapper::Mapper40(m) => false,
            Mapper::Mapper42(m) => false,
            Mapper::Mapper50(m) => false,
            Mapper::Mapper65(m) => false,
            Mapper::Mapper67(m) => false,
            Mapper::Mapper73(m) => false,
            Mapper::Mapper117(m) => false,
            Mapper::Mapper175(m) => false,
            Mapper::Mapper234(m) => m.has_bus_conflicts(),
            Mapper::Mapper60(m) => false,
            Mapper::Mapper83(m) => false,
            Mapper::Mapper183(m) => false,
            Mapper::Mapper212(m) => false,
            _ => self.has_bus_conflicts_spec_7(),
        }
    }

    pub open spec fn has_bus_conflicts_spec_7(&self) -> bool {
        match self {
            Mapper::Mapper222(m) => false,
            Mapper::Mapper235(m) => false,
            Mapper::Mapper272(m) => false,
            Mapper::Mapper330(m) => false,
            Mapper::Mapper91(m) => false,
            Mapper::JyAsic(m) => false,
            _ => false,
        }
    }

    /// Does a cartridge-space write AND the value with the ROM byte?
    pub fn has_bus_conflicts(&self) -> (r: bool)
        requires self.wf(),
        ensures r == self.has_bus_conflicts_spec(),
    {
        match self {
            Mapper::Nrom(m) => false,
            Mapper::Unrom(m) => false,
            Mapper::Cnrom(m) => false,
            Mapper::Axrom(m) => false,
            Mapper::ColorDreams(m) => false,
            Mapper::Gxrom(m) => false,
            Mapper::Codemasters(m) => false,
            Mapper::Bf9096(m) => false,
            Mapper::Cprom(m) => false,
            Mapper::Bandai74161(m) => false,
            Mapper::Mapper36(m) => m.has_bus_conflicts(),
            Mapper::Mapper81(m) => false,
            Mapper::Mapper8(m) => false,
            Mapper::Mapper99(m) => false,
            Mapper::Mapper29(m) => false,
            Mapper::UnlPci556(m) => false,
            _ => self.has_bus_conflicts_1(),
        }
    }

    fn has_bus_conflicts_1(&self) -> (r: bool)
        requires self.wf(),
        ensures r == self.has_bus_conflicts_spec_1(),
    {
        match self {
            Mapper::Mapper72(m) => false,
            Mapper::Mapper122(m) => false,
            Mapper::Mapper79(m) => false,
            Mapper::Mapper107(m) => false,
            Mapper::Mapper92(m) => false,
            Mapper::JalecoJf11_14(m) => false,
            Mapper::Mapper203(m) => false,
            Mapper::Mapper185(m) => false,
            Mapper::Mapper188(m) => false,
            Mapper::Mapper193(m) => false,
            Mapper::Mapper186(m) => false,
            Mapper::Mapper218(m) => false,
            Mapper::Bnrom(m) => m.has_bus_conflicts(),
            Mapper::Nina01(m) => false,
            Mapper::Sachen133(m) => false,
            Mapper::SachenSa0161m(m) => false,
            _ => self.has_bus_conflicts_2(),
        }
    }

    fn has_bus_conflicts_2(&self) -> (r: bool)
        requires self.wf(),
        ensures r == self.has_bus_conflicts_spec_2(),
    {
        match self {
            Mapper::Sachen149(m) => false,
            Mapper::Sachen8259(m) => false,
            Mapper::Sachen74Ls374N(m) => false,
            Mapper::Sunsoft4(m) => false,
            Mapper::Sunsoft184(m) => false,
            Mapper::Sunsoft89(m) => false,
            Mapper::Mapper271(m) => false,
            Mapper::Mapper285(m) => false,
            Mapper::Mapper310(m) => false,
            Mapper::Mapper319(m) => false,
            Mapper::Mapper326(m) => false,
            Mapper::Mapper156(m) => false,
            Mapper::Subor166(m) => false,
            Mapper::NanjingMapper(m) => false,
            Mapper::Ntdec112(m) => false,
            Mapper::Tf1201(m) => false,
            _ => self.has_bus_conflicts_3(),
        }
    }

    fn has_bus_conflicts_3(&self) -> (r: bool)
        requires self.wf(),
        ensures r == self.has_bus_conflicts_spec_3(),
    {
        match self {
            Mapper::TxcMapper(m) => false,
            Mapper::Namco118(m) => false,
            Mapper::Namco108Mapper95(m) => false,
            Mapper::Namco108Mapper206(m) => false,
            Mapper::Namco108Mapper154(m) => false,
            Mapper::Mapper103(m) => false,
            Mapper::Mapper120(m) => false,
            Mapper::Mapper104(m) => false,
            Mapper::Mapper108(m) => false,
            Mapper::Mapper190(m) => false,
            Mapper::Mapper168(m) => false,
            Mapper::Mapper170(m) => false,
            Mapper::Mapper177(m) => false,
            Mapper::Mapper230(m) => false,
            Mapper::Mapper233(m) => false,
            Mapper::Mapper116(m) => false,
            _ => self.has_bus_conflicts_4(),
        }
    }

    fn has_bus_conflicts_4(&self) -> (r: bool)
        requires self.wf(),
        ensures r == self.has_bus_conflicts_spec_4(),
    {
        match self {
            Mapper::TaitoTc0190(m) => false,
            Mapper::TaitoX1005(m) => false,
            Mapper::TaitoX1017(m) => false,
            Mapper::ActionEnterprises(m) => false,
            Mapper::AddrLatch16k(m) => false,
            Mapper::BandaiFcg(m) => false,
            Mapper::Mapper15(m) => false,
            Mapper::Action53(m) => false,
            Mapper::Mapper53(m) => false,
            Mapper::Mapper51(m) => false,
            Mapper::Mapper57(m) => false,
            Mapper::Mapper63(m) => false,
            Mapper::Mapper128(m) => false,
            Mapper::Mapper226(m) => false,
            Mapper::Mapper240(m) => false,
            Mapper::Mapper241(m) => false,
            _ => self.has_bus_conflicts_5(),
        }
    }

    fn has_bus_conflicts_5(&self) -> (r: bool)
        requires self.wf(),
        ensures r == self.has_bus_conflicts_spec_5(),
    {
        match self {
            Mapper::Mapper244(m) => false,
            Mapper::Mapper246(m) => false,
            Mapper::Mapper236(m) => false,
            Mapper::Mapper237(m) => false,
            Mapper::Mapper31(m) => false,
            Mapper::Mapper96(m) => false,
            Mapper::Nina03_06(m) => false,
            Mapper::Caltron41(m) => false,
            Mapper::ColorDreams46(m) => false,
            Mapper::Mapper151(m) => false,
            Mapper::JalecoJf16(m) => m.has_bus_conflicts(),
            Mapper::JalecoJfxx(m) => false,
            Mapper::JalecoJf13(m) => false,
            Mapper::UnromVariantMapper(m) => false,
            Mapper::IremG101(m) => false,
            Mapper::IremLrog017(m) => false,
            _ => self.has_bus_conflicts_6(),
        }
    }

    fn has_bus_conflicts_6(&self) -> (r: bool)
        requires self.wf(),
        ensures r == self.has_bus_conflicts_spec_6(),
    {
        match self {
            Mapper::IremTamS1(m) => false,
            Mapper::Vrc1(m) => false,
            Mapper::Mapper18(m) => false,
            Mapper::Mapper40(m) => false,
            Mapper::Mapper42(m) => false,
            Mapper::Mapper50(m) => false,
            Mapper::Mapper65(m) => false,
            Mapper::Mapper67(m) => false,
            Mapper::Mapper73(m) => false,
            Mapper::Mapper117(m) => false,
            Mapper::Mapper175(m) => false,
            Mapper::Mapper234(m) => m.has_bus_conflicts(),
            Mapper::Mapper60(m) => false,
            Mapper::Mapper83(m) => false,
            Mapper::Mapper183(m) => false,
            Mapper::Mapper212(m) => false,
            _ => self.has_bus_conflicts_7(),
        }
    }

    fn has_bus_conflicts_7(&self) -> (r: bool)
        requires self.wf(),
        ensures r == self.has_bus_conflicts_spec_7(),
    {
        match self {
            Mapper::Mapper222(m) => false,
            Mapper::Mapper235(m) => false,
            Mapper::Mapper272(m) => false,
            Mapper::Mapper330(m) => false,
            Mapper::Mapper91(m) => false,
            Mapper::JyAsic(m) => false,
            _ => false,
        }
    }

    pub open spec fn low_register_write_falls_through_spec(&self, addr: u16) -> bool {
        match self {
            Mapper::Nrom(m) => false,
            Mapper::Unrom(m) => false,
            Mapper::Cnrom(m) => false,
            Mapper::Axrom(m) => false,
            Mapper::ColorDreams(m) => false,
            Mapper::Gxrom(m) => false,
            Mapper::Codemasters(m) => false,
            Mapper::Bf9096(m) => false,
            Mapper::Cprom(m) => false,
            Mapper::Bandai74161(m) => false,
            Mapper::Mapper36(m) => false,
            Mapper::Mapper81(m) => false,
            Mapper::Mapper8(m) => false,
            Mapper::Mapper99(m) => false,
            Mapper::Mapper29(m) => false,
            Mapper::UnlPci556(m) => false,
            _ => self.low_register_write_falls_through_spec_1(addr),
        }
    }

    pub open spec fn low_register_write_falls_through_spec_1(&self, addr: u16) -> bool {
        match self {
            Mapper::Mapper72(m) => false,
            Mapper::Mapper122(m) => false,
            Mapper::Mapper79(m) => false,
            Mapper::Mapper107(m) => false,
            Mapper::Mapper92(m) => false,
            Mapper::JalecoJf11_14(m) => false,
            Mapper::Mapper203(m) => false,
            Mapper::Mapper185(m) => false,
            Mapper::Mapper188(m) => false,
            Mapper::Mapper193(m) => false,
            Mapper::Mapper186(m) => false,
            Mapper::Mapper218(m) => false,
            Mapper::Bnrom(m) => false,
            Mapper::Nina01(m) => m.low_register_write_falls_through(addr),
            Mapper::Sachen133(m) => false,
            Mapper::SachenSa0161m(m) => false,
            _ => self.low_register_write_falls_through_spec_2(addr),
        }
    }

    pub open spec fn low_register_write_falls_through_spec_2(&self, addr: u16) -> bool {
        match self {
            Mapper::Sachen149(m) => false,
            Mapper::Sachen8259(m) => false,
            Mapper::Sachen74Ls374N(m) => false,
            Mapper::Sunsoft4(m) => false,
            Mapper::Sunsoft184(m) => false,
            Mapper::Sunsoft89(m) => false,
            Mapper::Mapper271(m) => false,
            Mapper::Mapper285(m) => false,
            Mapper::Mapper310(m) => false,
            Mapper::Mapper319(m) => false,
            Mapper::Mapper326(m) => false,
            Mapper::Mapper156(m) => false,
            Mapper::Subor166(m) => false,
            Mapper::NanjingMapper(m) => false,
            Mapper::Ntdec112(m) => false,
            Mapper::Tf1201(m) => false,
            _ => self.low_register_write_falls_through_spec_3(addr),
        }
    }

    pub open spec fn low_register_write_falls_through_spec_3(&self, addr: u16) -> bool {
        match self {
            Mapper::TxcMapper(m) => false,
            Mapper::Namco118(m) => false,
            Mapper::Namco108Mapper95(m) => false,
            Mapper::Namco108Mapper206(m) => false,
            Mapper::Namco108Mapper154(m) => false,
            Mapper::Mapper103(m) => m.low_register_write_falls_through(addr),
            Mapper::Mapper120(m) => false,
            Mapper::Mapper104(m) => false,
            Mapper::Mapper108(m) => false,
            Mapper::Mapper190(m) => false,
            Mapper::Mapper168(m) => false,
            Mapper::Mapper170(m) => false,
            Mapper::Mapper177(m) => false,
            Mapper::Mapper230(m) => false,
            Mapper::Mapper233(m) => false,
            Mapper::Mapper116(m) => false,
            _ => self.low_register_write_falls_through_spec_4(addr),
        }
    }

    pub open spec fn low_register_write_falls_through_spec_4(&self, addr: u16) -> bool {
        match self {
            Mapper::TaitoTc0190(m) => false,
            Mapper::TaitoX1005(m) => false,
            Mapper::TaitoX1017(m) => false,
            Mapper::ActionEnterprises(m) => false,
            Mapper::AddrLatch16k(m) => false,
            Mapper::BandaiFcg(m) => false,
            Mapper::Mapper15(m) => false,
            Mapper::Action53(m) => false,
            Mapper::Mapper53(m) => false,
            Mapper::Mapper51(m) => false,
            Mapper::Mapper57(m) => false,
            Mapper::Mapper63(m) => false,
            Mapper::Mapper128(m) => false,
            Mapper::Mapper226(m) => false,
            Mapper::Mapper240(m) => false,
            Mapper::Mapper241(m) => false,
            _ => self.low_register_write_falls_through_spec_5(addr),
        }
    }

    pub open spec fn low_register_write_falls_through_spec_5(&self, addr: u16) -> bool {
        match self {
            Mapper::Mapper244(m) => false,
            Mapper::Mapper246(m) => false,
            Mapper::Mapper236(m) => false,
            Mapper::Mapper237(m) => false,
            Mapper::Mapper31(m) => false,
            Mapper::Mapper96(m) => false,
            Mapper::Nina03_06(m) => false,
            Mapper::Caltron41(m) => false,
            Mapper::ColorDreams46(m) => false,
            Mapper::Mapper151(m) => false,
            Mapper::JalecoJf16(m) => false,
            Mapper::JalecoJfxx(m) => false,
            Mapper::JalecoJf13(m) => false,
            Mapper::UnromVariantMapper(m) => false,
            Mapper::IremG101(m) => false,
            Mapper::IremLrog017(m) => false,
            _ => self.low_register_write_falls_through_spec_6(addr),
        }
    }

    pub open spec fn low_register_write_falls_through_spec_6(&self, addr: u16) -> bool {
        match self {
            Mapper::IremTamS1(m) => false,
            Mapper::Vrc1(m) => false,
            Mapper::Mapper18(m) => false,
            Mapper::Mapper40(m) => false,
            Mapper::Mapper42(m) => false,
            Mapper::Mapper50(m) => false,
            Mapper::Mapper65(m) => false,
            Mapper::Mapper67(m) => false,
            Mapper::Mapper73(m) => false,
            Mapper::Mapper117(m) => false,
            Mapper::Mapper175(m) => false,
            Mapper::Mapper234(m) => false,
            Mapper::Mapper60(m) => false,
            Mapper::Mapper83(m) => false,
            Mapper::Mapper183(m) => false,
            Mapper::Mapper212(m) => false,
            _ => self.low_register_write_falls_through_spec_7(addr),
        }
    }

    pub open spec fn low_register_write_falls_through_spec_7(&self, addr: u16) -> bool {
        match self {
            Mapper::Mapper222(m) => false,
            Mapper::Mapper235(m) => false,
            Mapper::Mapper272(m) => false,
            Mapper::Mapper330(m) => false,
            Mapper::Mapper91(m) => false,
            Mapper::JyAsic(m) => false,
            _ => false,
        }
    }

    /// Does a claimed $6000-$7FFF write also land in PRG-RAM?
    pub fn low_register_write_falls_through(&self, addr: u16) -> (r: bool)
        requires self.wf(),
        ensures r == self.low_register_write_falls_through_spec(addr),
    {
        match self {
            Mapper::Nrom(m) => false,
            Mapper::Unrom(m) => false,
            Mapper::Cnrom(m) => false,
            Mapper::Axrom(m) => false,
            Mapper::ColorDreams(m) => false,
            Mapper::Gxrom(m) => false,
            Mapper::Codemasters(m) => false,
            Mapper::Bf9096(m) => false,
            Mapper::Cprom(m) => false,
            Mapper::Bandai74161(m) => false,
            Mapper::Mapper36(m) => false,
            Mapper::Mapper81(m) => false,
            Mapper::Mapper8(m) => false,
            Mapper::Mapper99(m) => false,
            Mapper::Mapper29(m) => false,
            Mapper::UnlPci556(m) => false,
            _ => self.low_register_write_falls_through_1(addr),
        }
    }

    fn low_register_write_falls_through_1(&self, addr: u16) -> (r: bool)
        requires self.wf(),
        ensures r == self.low_register_write_falls_through_spec_1(addr),
    {
        match self {
            Mapper::Mapper72(m) => false,
            Mapper::Mapper122(m) => false,
            Mapper::Mapper79(m) => false,
            Mapper::Mapper107(m) => false,
            Mapper::Mapper92(m) => false,
            Mapper::JalecoJf11_14(m) => false,
            Mapper::Mapper203(m) => false,
            Mapper::Mapper185(m) => false,
            Mapper::Mapper188(m) => false,
            Mapper::Mapper193(m) => false,
            Mapper::Mapper186(m) => false,
            Mapper::Mapper218(m) => false,
            Mapper::Bnrom(m) => false,
            Mapper::Nina01(m) => m.low_register_write_falls_through(addr),
            Mapper::Sachen133(m) => false,
            Mapper::SachenSa0161m(m) => false,
            _ => self.low_register_write_falls_through_2(addr),
        }
    }

    fn low_register_write_falls_through_2(&self, addr: u16) -> (r: bool)
        requires self.wf(),
        ensures r == self.low_register_write_falls_through_spec_2(addr),
    {
        match self {
            Mapper::Sachen149(m) => false,
            Mapper::Sachen8259(m) => false,
            Mapper::Sachen74Ls374N(m) => false,
            Mapper::Sunsoft4(m) => false,
            Mapper::Sunsoft184(m) => false,
            Mapper::Sunsoft89(m) => false,
            Mapper::Mapper271(m) => false,
            Mapper::Mapper285(m) => false,
            Mapper::Mapper310(m) => false,
            Mapper::Mapper319(m) => false,
            Mapper::Mapper326(m) => false,
            Mapper::Mapper156(m) => false,
            Mapper::Subor166(m) => false,
            Mapper::NanjingMapper(m) => false,
            Mapper::Ntdec112(m) => false,
            Mapper::Tf1201(m) => false,
            _ => self.low_register_write_falls_through_3(addr),
        }
    }

    fn low_register_write_falls_through_3(&self, addr: u16) -> (r: bool)
        requires self.wf(),
        ensures r == self.low_register_write_falls_through_spec_3(addr),
    {
        match self {
            Mapper::TxcMapper(m) => false,
            Mapper::Namco118(m) => false,
            Mapper::Namco108Mapper95(m) => false,
            Mapper::Namco108Mapper206(m) => false,
            Mapper::Namco108Mapper154(m) => false,
            Mapper::Mapper103(m) => m.low_register_write_falls_through(addr),
            Mapper::Mapper120(m) => false,
            Mapper::Mapper104(m) => false,
            Mapper::Mapper108(m) => false,
            Mapper::Mapper190(m) => false,
            Mapper::Mapper168(m) => false,
            Mapper::Mapper170(m) => false,
            Mapper::Mapper177(m) => false,
            Mapper::Mapper230(m) => false,
            Mapper::Mapper233(m) => false,
            Mapper::Mapper116(m) => false,
            _ => self.low_register_write_falls_through_4(addr),
        }
    }

    fn low_register_write_falls_through_4(&self, addr: u16) -> (r: bool)
        requires self.wf(),
        ensures r == self.low_register_write_falls_through_spec_4(addr),
    {
        match self {
            Mapper::TaitoTc0190(m) => false,
            Mapper::TaitoX1005(m) => false,
            Mapper::TaitoX1017(m) => false,
            Mapper::ActionEnterprises(m) => false,
            Mapper::AddrLatch16k(m) => false,
            Mapper::BandaiFcg(m) => false,
            Mapper::Mapper15(m) => false,
            Mapper::Action53(m) => false,
            Mapper::Mapper53(m) => false,
            Mapper::Mapper51(m) => false,
            Mapper::Mapper57(m) => false,
            Mapper::Mapper63(m) => false,
            Mapper::Mapper128(m) => false,
            Mapper::Mapper226(m) => false,
            Mapper::Mapper240(m) => false,
            Mapper::Mapper241(m) => false,
            _ => self.low_register_write_falls_through_5(addr),
        }
    }

    fn low_register_write_falls_through_5(&self, addr: u16) -> (r: bool)
        requires self.wf(),
        ensures r == self.low_register_write_falls_through_spec_5(addr),
    {
        match self {
            Mapper::Mapper244(m) => false,
            Mapper::Mapper246(m) => false,
            Mapper::Mapper236(m) => false,
            Mapper::Mapper237(m) => false,
            Mapper::Mapper31(m) => false,
            Mapper::Mapper96(m) => false,
            Mapper::Nina03_06(m) => false,
            Mapper::Caltron41(m) => false,
            Mapper::ColorDreams46(m) => false,
            Mapper::Mapper151(m) => false,
            Mapper::JalecoJf16(m) => false,
            Mapper::JalecoJfxx(m) => false,
            Mapper::JalecoJf13(m) => false,
            Mapper::UnromVariantMapper(m) => false,
            Mapper::IremG101(m) => false,
            Mapper::IremLrog017(m) => false,
            _ => self.low_register_write_falls_through_6(addr),
        }
    }

    fn low_register_write_falls_through_6(&self, addr: u16) -> (r: bool)
        requires self.wf(),
        ensures r == self.low_register_write_falls_through_spec_6(addr),
    {
        match self {
            Mapper::IremTamS1(m) => false,
            Mapper::Vrc1(m) => false,
            Mapper::Mapper18(m) => false,
            Mapper::Mapper40(m) => false,
            Mapper::Mapper42(m) => false,
            Mapper::Mapper50(m) => false,
            Mapper::Mapper65(m) => false,
            Mapper::Mapper67(m) => false,
            Mapper::Mapper73(m) => false,
            Mapper::Mapper117(m) => false,
            Mapper::Mapper175(m) => false,
            Mapper::Mapper234(m) => false,
            Mapper::Mapper60(m) => false,
            Mapper::Mapper83(m) => false,
            Mapper::Mapper183(m) => false,
            Mapper::Mapper212(m) => false,
            _ => self.low_register_write_falls_through_7(addr),
        }
    }

    fn low_register_write_falls_through_7(&self, addr: u16) -> (r: bool)
        requires self.wf(),
        ensures r == self.low_register_write_falls_through_spec_7(addr),
    {
        match self {
            Mapper::Mapper222(m) => false,
            Mapper::Mapper235(m) => false,
            Mapper::Mapper272(m) => false,
            Mapper::Mapper330(m) => false,
            Mapper::Mapper91(m) => false,
            Mapper::JyAsic(m) => false,
            _ => false,
        }
    }

    pub open spec fn peek_low_register_spec(&self, addr: u16) -> Option<u8> {
        match self {
            Mapper::Nrom(m) => None,
            Mapper::Unrom(m) => None,
            Mapper::Cnrom(m) => None,
            Mapper::Axrom(m) => None,
            Mapper::ColorDreams(m) => None,
            Mapper::Gxrom(m) => None,
            Mapper::Codemasters(m) => None,
            Mapper::Bf9096(m) => None,
            Mapper::Cprom(m) => None,
            Mapper::Bandai74161(m) => None,
            Mapper::Mapper36(m) => None,
            Mapper::Mapper81(m) => None,
            Mapper::Mapper8(m) => None,
            Mapper::Mapper99(m) => None,
            Mapper::Mapper29(m) => None,
            Mapper::UnlPci556(m) => None,
            _ => self.peek_low_register_spec_1(addr),
        }
    }

    pub open spec fn peek_low_register_spec_1(&self, addr: u16) -> Option<u8> {
        match self {
            Mapper::Mapper72(m) => None,
            Mapper::Mapper122(m) => None,
            Mapper::Mapper79(m) => None,
            Mapper::Mapper107(m) => None,
            Mapper::Mapper92(m) => None,
            Mapper::JalecoJf11_14(m) => None,
            Mapper::Mapper203(m) => None,
            Mapper::Mapper185(m) => None,
            Mapper::Mapper188(m) => m.peek_low_register(addr),
            Mapper::Mapper193(m) => None,
            Mapper::Mapper186(m) => m.peek_low_register(addr),
            Mapper::Mapper218(m) => None,
            Mapper::Bnrom(m) => None,
            Mapper::Nina01(m) => None,
            Mapper::Sachen133(m) => None,
            Mapper::SachenSa0161m(m) => None,
            _ => self.peek_low_register_spec_2(addr),
        }
    }

    pub open spec fn peek_low_register_spec_2(&self, addr: u16) -> Option<u8> {
        match self {
            Mapper::Sachen149(m) => None,
            Mapper::Sachen8259(m) => None,
            Mapper::Sachen74Ls374N(m) => None,
            Mapper::Sunsoft4(m) => None,
            Mapper::Sunsoft184(m) => None,
            Mapper::Sunsoft89(m) => None,
            Mapper::Mapper271(m) => None,
            Mapper::Mapper285(m) => None,
            Mapper::Mapper310(m) => None,
            Mapper::Mapper319(m) => None,
            Mapper::Mapper326(m) => None,
            Mapper::Mapper156(m) => None,
            Mapper::Subor166(m) => None,
            Mapper::NanjingMapper(m) => None,
            Mapper::Ntdec112(m) => None,
            Mapper::Tf1201(m) => None,
            _ => self.peek_low_register_spec_3(addr),
        }
    }

    pub open spec fn peek_low_register_spec_3(&self, addr: u16) -> Option<u8> {
        match self {
            Mapper::TxcMapper(m) => None,
            Mapper::Namco118(m) => None,
            Mapper::Namco108Mapper95(m) => None,
            Mapper::Namco108Mapper206(m) => None,
            Mapper::Namco108Mapper154(m) => None,
            Mapper::Mapper103(m) => None,
            Mapper::Mapper120(m) => None,
            Mapper::Mapper104(m) => None,
            Mapper::Mapper108(m) => None,
            Mapper::Mapper190(m) => None,
            Mapper::Mapper168(m) => None,
            Mapper::Mapper170(m) => m.peek_low_register(addr),
            Mapper::Mapper177(m) => None,
            Mapper::Mapper230(m) => None,
            Mapper::Mapper233(m) => None,
            Mapper::Mapper116(m) => None,
            _ => self.peek_low_register_spec_4(addr),
        }
    }

    pub open spec fn peek_low_register_spec_4(&self, addr: u16) -> Option<u8> {
        match self {
            Mapper::TaitoTc0190(m) => None,
            Mapper::TaitoX1005(m) => m.peek_low_register(addr),
            Mapper::TaitoX1017(m) => None,
            Mapper::ActionEnterprises(m) => None,
            Mapper::AddrLatch16k(m) => None,
            Mapper::BandaiFcg(m) => None,
            Mapper::Mapper15(m) => None,
            Mapper::Action53(m) => None,
            Mapper::Mapper53(m) => None,
            Mapper::Mapper51(m) => None,
            Mapper::Mapper57(m) => None,
            Mapper::Mapper63(m) => None,
            Mapper::Mapper128(m) => None,
            Mapper::Mapper226(m) => None,
            Mapper::Mapper240(m) => None,
            Mapper::Mapper241(m) => None,
            _ => self.peek_low_register_spec_5(addr),
        }
    }

    pub open spec fn peek_low_register_spec_5(&self, addr: u16) -> Option<u8> {
        match self {
            Mapper::Mapper244(m) => None,
            Mapper::Mapper246(m) => None,
            Mapper::Mapper236(m) => None,
            Mapper::Mapper237(m) => None,
            Mapper::Mapper31(m) => None,
            Mapper::Mapper96(m) => None,
            Mapper::Nina03_06(m) => None,
            Mapper::Caltron41(m) => None,
            Mapper::ColorDreams46(m) => None,
            Mapper::Mapper151(m) => None,
            Mapper::JalecoJf16(m) => None,
            Mapper::JalecoJfxx(m) => None,
            Mapper::JalecoJf13(m) => None,
            Mapper::UnromVariantMapper(m) => None,
            Mapper::IremG101(m) => None,
            Mapper::IremLrog017(m) => None,
            _ => self.peek_low_register_spec_6(addr),
        }
    }

    pub open spec fn peek_low_register_spec_6(&self, addr: u16) -> Option<u8> {
        match self {
            Mapper::IremTamS1(m) => None,
            Mapper::Vrc1(m) => None,
            Mapper::Mapper18(m) => None,
            Mapper::Mapper40(m) => None,
            Mapper::Mapper42(m) => None,
            Mapper::Mapper50(m) => None,
            Mapper::Mapper65(m) => None,
            Mapper::Mapper67(m) => None,
            Mapper::Mapper73(m) => None,
            Mapper::Mapper117(m) => None,
            Mapper::Mapper175(m) => None,
            Mapper::Mapper234(m) => None,
            Mapper::Mapper60(m) => None,
            Mapper::Mapper83(m) => None,
            Mapper::Mapper183(m) => None,
            Mapper::Mapper212(m) => None,
            _ => self.peek_low_register_spec_7(addr),
        }
    }

    pub open spec fn peek_low_register_spec_7(&self, addr: u16) -> Option<u8> {
        match self {
            Mapper::Mapper222(m) => None,
            Mapper::Mapper235(m) => None,
            Mapper::Mapper272(m) => None,
            Mapper::Mapper330(m) => None,
            Mapper::Mapper91(m) => None,
            Mapper::JyAsic(m) => None,
            _ => None,
        }
    }

    /// A register value the board drives at $6000-$7FFF, if any.
    pub fn peek_low_register(&self, addr: u16) -> (r: Option<u8>)
        requires self.wf(),
        ensures r == self.peek_low_register_spec(addr),
    {
        match self {
            Mapper::Nrom(m) => None,
            Mapper::Unrom(m) => None,
            Mapper::Cnrom(m) => None,
            Mapper::Axrom(m) => None,
            Mapper::ColorDreams(m) => None,
            Mapper::Gxrom(m) => None,
            Mapper::Codemasters(m) => None,
            Mapper::Bf9096(m) => None,
            Mapper::Cprom(m) => None,
            Mapper::Bandai74161(m) => None,
            Mapper::Mapper36(m) => None,
            Mapper::Mapper81(m) => None,
            Mapper::Mapper8(m) => None,
            Mapper::Mapper99(m) => None,
            Mapper::Mapper29(m) => None,
            Mapper::UnlPci556(m) => None,
            _ => self.peek_low_register_1(addr),
        }
    }

    fn peek_low_register_1(&self, addr: u16) -> (r: Option<u8>)
        requires self.wf(),
        ensures r == self.peek_low_register_spec_1(addr),
    {
        match self {
            Mapper::Mapper72(m) => None,
            Mapper::Mapper122(m) => None,
            Mapper::Mapper79(m) => None,
            Mapper::Mapper107(m) => None,
            Mapper::Mapper92(m) => None,
            Mapper::JalecoJf11_14(m) => None,
            Mapper::Mapper203(m) => None,
            Mapper::Mapper185(m) => None,
            Mapper::Mapper188(m) => m.peek_low_register(addr),
            Mapper::Mapper193(m) => None,
            Mapper::Mapper186(m) => m.peek_low_register(addr),
            Mapper::Mapper218(m) => None,
            Mapper::Bnrom(m) => None,
            Mapper::Nina01(m) => None,
            Mapper::Sachen133(m) => None,
            Mapper::SachenSa0161m(m) => None,
            _ => self.peek_low_register_2(addr),
        }
    }

    fn peek_low_register_2(&self, addr: u16) -> (r: Option<u8>)
        requires self.wf(),
        ensures r == self.peek_low_register_spec_2(addr),
    {
        match self {
            Mapper::Sachen149(m) => None,
            Mapper::Sachen8259(m) => None,
            Mapper::Sachen74Ls374N(m) => None,
            Mapper::Sunsoft4(m) => None,
            Mapper::Sunsoft184(m) => None,
            Mapper::Sunsoft89(m) => None,
            Mapper::Mapper271(m) => None,
            Mapper::Mapper285(m) => None,
            Mapper::Mapper310(m) => None,
            Mapper::Mapper319(m) => None,
            Mapper::Mapper326(m) => None,
            Mapper::Mapper156(m) => None,
            Mapper::Subor166(m) => None,
            Mapper::NanjingMapper(m) => None,
            Mapper::Ntdec112(m) => None,
            Mapper::Tf1201(m) => None,
            _ => self.peek_low_register_3(addr),
        }
    }

    fn peek_low_register_3(&self, addr: u16) -> (r: Option<u8>)
        requires self.wf(),
        ensures r == self.peek_low_register_spec_3(addr),
    {
        match self {
            Mapper::TxcMapper(m) => None,
            Mapper::Namco118(m) => None,
            Mapper::Namco108Mapper95(m) => None,
            Mapper::Namco108Mapper206(m) => None,
            Mapper::Namco108Mapper154(m) => None,
            Mapper::Mapper103(m) => None,
            Mapper::Mapper120(m) => None,
            Mapper::Mapper104(m) => None,
            Mapper::Mapper108(m) => None,
            Mapper::Mapper190(m) => None,
            Mapper::Mapper168(m) => None,
            Mapper::Mapper170(m) => m.peek_low_register(addr),
            Mapper::Mapper177(m) => None,
            Mapper::Mapper230(m) => None,
            Mapper::Mapper233(m) => None,
            Mapper::Mapper116(m) => None,
            _ => self.peek_low_register_4(addr),
        }
    }

    fn peek_low_register_4(&self, addr: u16) -> (r: Option<u8>)
        requires self.wf(),
        ensures r == self.peek_low_register_spec_4(addr),
    {
        match self {
            Mapper::TaitoTc0190(m) => None,
            Mapper::TaitoX1005(m) => m.peek_low_register(addr),
            Mapper::TaitoX1017(m) => None,
            Mapper::ActionEnterprises(m) => None,
            Mapper::AddrLatch16k(m) => None,
            Mapper::BandaiFcg(m) => None,
            Mapper::Mapper15(m) => None,
            Mapper::Action53(m) => None,
            Mapper::Mapper53(m) => None,
            Mapper::Mapper51(m) => None,
            Mapper::Mapper57(m) => None,
            Mapper::Mapper63(m) => None,
            Mapper::Mapper128(m) => None,
            Mapper::Mapper226(m) => None,
            Mapper::Mapper240(m) => None,
            Mapper::Mapper241(m) => None,
            _ => self.peek_low_register_5(addr),
        }
    }

    fn peek_low_register_5(&self, addr: u16) -> (r: Option<u8>)
        requires self.wf(),
        ensures r == self.peek_low_register_spec_5(addr),
    {
        match self {
            Mapper::Mapper244(m) => None,
            Mapper::Mapper246(m) => None,
            Mapper::Mapper236(m) => None,
            Mapper::Mapper237(m) => None,
            Mapper::Mapper31(m) => None,
            Mapper::Mapper96(m) => None,
            Mapper::Nina03_06(m) => None,
            Mapper::Caltron41(m) => None,
            Mapper::ColorDreams46(m) => None,
            Mapper::Mapper151(m) => None,
            Mapper::JalecoJf16(m) => None,
            Mapper::JalecoJfxx(m) => None,
            Mapper::JalecoJf13(m) => None,
            Mapper::UnromVariantMapper(m) => None,
            Mapper::IremG101(m) => None,
            Mapper::IremLrog017(m) => None,
            _ => self.peek_low_register_6(addr),
        }
    }

    fn peek_low_register_6(&self, addr: u16) -> (r: Option<u8>)
        requires self.wf(),
        ensures r == self.peek_low_register_spec_6(addr),
    {
        match self {
            Mapper::IremTamS1(m) => None,
            Mapper::Vrc1(m) => None,
            Mapper::Mapper18(m) => None,
            Mapper::Mapper40(m) => None,
            Mapper::Mapper42(m) => None,
            Mapper::Mapper50(m) => None,
            Mapper::Mapper65(m) => None,
            Mapper::Mapper67(m) => None,
            Mapper::Mapper73(m) => None,
            Mapper::Mapper117(m) => None,
            Mapper::Mapper175(m) => None,
            Mapper::Mapper234(m) => None,
            Mapper::Mapper60(m) => None,
            Mapper::Mapper83(m) => None,
            Mapper::Mapper183(m) => None,
            Mapper::Mapper212(m) => None,
            _ => self.peek_low_register_7(addr),
        }
    }

    fn peek_low_register_7(&self, addr: u16) -> (r: Option<u8>)
        requires self.wf(),
        ensures r == self.peek_low_register_spec_7(addr),
    {
        match self {
            Mapper::Mapper222(m) => None,
            Mapper::Mapper235(m) => None,
            Mapper::Mapper272(m) => None,
            Mapper::Mapper330(m) => None,
            Mapper::Mapper91(m) => None,
            Mapper::JyAsic(m) => None,
            _ => None,
        }
    }

    pub open spec fn peek_expansion_spec(&self, addr: u16) -> Option<u8> {
        match self {
            Mapper::Nrom(m) => None,
            Mapper::Unrom(m) => None,
            Mapper::Cnrom(m) => None,
            Mapper::Axrom(m) => None,
            Mapper::ColorDreams(m) => None,
            Mapper::Gxrom(m) => None,
            Mapper::Codemasters(m) => None,
            Mapper::Bf9096(m) => None,
            Mapper::Cprom(m) => None,
            Mapper::Bandai74161(m) => None,
            Mapper::Mapper36(m) => m.peek_expansion(addr),
            Mapper::Mapper81(m) => None,
            Mapper::Mapper8(m) => None,
            Mapper::Mapper99(m) => None,
            Mapper::Mapper29(m) => None,
            Mapper::UnlPci556(m) => None,
            _ => self.peek_expansion_spec_1(addr),
        }
    }

    pub open spec fn peek_expansion_spec_1(&self, addr: u16) -> Option<u8> {
        match self {
            Mapper::Mapper72(m) => None,
            Mapper::Mapper122(m) => None,
            Mapper::Mapper79(m) => None,
            Mapper::Mapper107(m) => None,
            Mapper::Mapper92(m) => None,
            Mapper::JalecoJf11_14(m) => None,
            Mapper::Mapper203(m) => None,
            Mapper::Mapper185(m) => None,
            Mapper::Mapper188(m) => None,
            Mapper::Mapper193(m) => None,
            Mapper::Mapper186(m) => m.peek_expansion(addr),
            Mapper::Mapper218(m) => None,
            Mapper::Bnrom(m) => None,
            Mapper::Nina01(m) => None,
            Mapper::Sachen133(m) => None,
            Mapper::SachenSa0161m(m) => None,
            _ => self.peek_expansion_spec_2(addr),
        }
    }

    pub open spec fn peek_expansion_spec_2(&self, addr: u16) -> Option<u8> {
        match self {
            Mapper::Sachen149(m) => None,
            Mapper::Sachen8259(m) => None,
            Mapper::Sachen74Ls374N(m) => None,
            Mapper::Sunsoft4(m) => None,
            Mapper::Sunsoft184(m) => None,
            Mapper::Sunsoft89(m) => None,
            Mapper::Mapper271(m) => None,
            Mapper::Mapper285(m) => m.peek_expansion(addr),
            Mapper::Mapper310(m) => None,
            Mapper::Mapper319(m) => m.peek_expansion(addr),
            Mapper::Mapper326(m) => None,
            Mapper::Mapper156(m) => None,
            Mapper::Subor166(m) => None,
            Mapper::NanjingMapper(m) => m.peek_expansion(addr),
            Mapper::Ntdec112(m) => None,
            Mapper::Tf1201(m) => None,
            _ => self.peek_expansion_spec_3(addr),
        }
    }

    pub open spec fn peek_expansion_spec_3(&self, addr: u16) -> Option<u8> {
        match self {
            Mapper::TxcMapper(m) => None,
            Mapper::Namco118(m) => None,
            Mapper::Namco108Mapper95(m) => None,
            Mapper::Namco108Mapper206(m) => None,
            Mapper::Namco108Mapper154(m) => None,
            Mapper::Mapper103(m) => None,
            Mapper::Mapper120(m) => None,
            Mapper::Mapper104(m) => None,
            Mapper::Mapper108(m) => None,
            Mapper::Mapper190(m) => None,
            Mapper::Mapper168(m) => None,
            Mapper::Mapper170(m) => None,
            Mapper::Mapper177(m) => None,
            Mapper::Mapper230(m) => None,
            Mapper::Mapper233(m) => None,
            Mapper::Mapper116(m) => None,
            _ => self.peek_expansion_spec_4(addr),
        }
    }

    pub open spec fn peek_expansion_spec_4(&self, addr: u16) -> Option<u8> {
        match self {
            Mapper::TaitoTc0190(m) => None,
            Mapper::TaitoX1005(m) => None,
            Mapper::TaitoX1017(m) => None,
            Mapper::ActionEnterprises(m) => m.peek_expansion(addr),
            Mapper::AddrLatch16k(m) => m.peek_expansion(addr),
            Mapper::BandaiFcg(m) => None,
            Mapper::Mapper15(m) => None,
            Mapper::Action53(m) => None,
            Mapper::Mapper53(m) => None,
            Mapper::Mapper51(m) => None,
            Mapper::Mapper57(m) => None,
            Mapper::Mapper63(m) => None,
            Mapper::Mapper128(m) => None,
            Mapper::Mapper226(m) => None,
            Mapper::Mapper240(m) => None,
            Mapper::Mapper241(m) => None,
            _ => self.peek_expansion_spec_5(addr),
        }
    }

    pub open spec fn peek_expansion_spec_5(&self, addr: u16) -> Option<u8> {
        match self {
            Mapper::Mapper244(m) => None,
            Mapper::Mapper246(m) => None,
            Mapper::Mapper236(m) => None,
            Mapper::Mapper237(m) => None,
            Mapper::Mapper31(m) => None,
            Mapper::Mapper96(m) => None,
            Mapper::Nina03_06(m) => None,
            Mapper::Caltron41(m) => None,
            Mapper::ColorDreams46(m) => None,
            Mapper::Mapper151(m) => None,
            Mapper::JalecoJf16(m) => None,
            Mapper::JalecoJfxx(m) => None,
            Mapper::JalecoJf13(m) => None,
            Mapper::UnromVariantMapper(m) => None,
            Mapper::IremG101(m) => None,
            Mapper::IremLrog017(m) => None,
            _ => self.peek_expansion_spec_6(addr),
        }
    }

    pub open spec fn peek_expansion_spec_6(&self, addr: u16) -> Option<u8> {
        match self {
            Mapper::IremTamS1(m) => None,
            Mapper::Vrc1(m) => None,
            Mapper::Mapper18(m) => None,
            Mapper::Mapper40(m) => None,
            Mapper::Mapper42(m) => None,
            Mapper::Mapper50(m) => None,
            Mapper::Mapper65(m) => None,
            Mapper::Mapper67(m) => None,
            Mapper::Mapper73(m) => None,
            Mapper::Mapper117(m) => None,
            Mapper::Mapper175(m) => None,
            Mapper::Mapper234(m) => None,
            Mapper::Mapper60(m) => None,
            Mapper::Mapper83(m) => m.peek_expansion(addr),
            Mapper::Mapper183(m) => None,
            Mapper::Mapper212(m) => None,
            _ => self.peek_expansion_spec_7(addr),
        }
    }

    pub open spec fn peek_expansion_spec_7(&self, addr: u16) -> Option<u8> {
        match self {
            Mapper::Mapper222(m) => None,
            Mapper::Mapper235(m) => None,
            Mapper::Mapper272(m) => None,
            Mapper::Mapper330(m) => None,
            Mapper::Mapper91(m) => None,
            Mapper::JyAsic(m) => None,
            _ => None,
        }
    }

    /// A value the board drives at $4018-$5FFF, if any.
    pub fn peek_expansion(&self, addr: u16) -> (r: Option<u8>)
        requires self.wf(),
        ensures r == self.peek_expansion_spec(addr),
    {
        match self {
            Mapper::Nrom(m) => None,
            Mapper::Unrom(m) => None,
            Mapper::Cnrom(m) => None,
            Mapper::Axrom(m) => None,
            Mapper::ColorDreams(m) => None,
            Mapper::Gxrom(m) => None,
            Mapper::Codemasters(m) => None,
            Mapper::Bf9096(m) => None,
            Mapper::Cprom(m) => None,
            Mapper::Bandai74161(m) => None,
            Mapper::Mapper36(m) => m.peek_expansion(addr),
            Mapper::Mapper81(m) => None,
            Mapper::Mapper8(m) => None,
            Mapper::Mapper99(m) => None,
            Mapper::Mapper29(m) => None,
            Mapper::UnlPci556(m) => None,
            _ => self.peek_expansion_1(addr),
        }
    }

    fn peek_expansion_1(&self, addr: u16) -> (r: Option<u8>)
        requires self.wf(),
        ensures r == self.peek_expansion_spec_1(addr),
    {
        match self {
            Mapper::Mapper72(m) => None,
            Mapper::Mapper122(m) => None,
            Mapper::Mapper79(m) => None,
            Mapper::Mapper107(m) => None,
            Mapper::Mapper92(m) => None,
            Mapper::JalecoJf11_14(m) => None,
            Mapper::Mapper203(m) => None,
            Mapper::Mapper185(m) => None,
            Mapper::Mapper188(m) => None,
            Mapper::Mapper193(m) => None,
            Mapper::Mapper186(m) => m.peek_expansion(addr),
            Mapper::Mapper218(m) => None,
            Mapper::Bnrom(m) => None,
            Mapper::Nina01(m) => None,
            Mapper::Sachen133(m) => None,
            Mapper::SachenSa0161m(m) => None,
            _ => self.peek_expansion_2(addr),
        }
    }

    fn peek_expansion_2(&self, addr: u16) -> (r: Option<u8>)
        requires self.wf(),
        ensures r == self.peek_expansion_spec_2(addr),
    {
        match self {
            Mapper::Sachen149(m) => None,
            Mapper::Sachen8259(m) => None,
            Mapper::Sachen74Ls374N(m) => None,
            Mapper::Sunsoft4(m) => None,
            Mapper::Sunsoft184(m) => None,
            Mapper::Sunsoft89(m) => None,
            Mapper::Mapper271(m) => None,
            Mapper::Mapper285(m) => m.peek_expansion(addr),
            Mapper::Mapper310(m) => None,
            Mapper::Mapper319(m) => m.peek_expansion(addr),
            Mapper::Mapper326(m) => None,
            Mapper::Mapper156(m) => None,
            Mapper::Subor166(m) => None,
            Mapper::NanjingMapper(m) => m.peek_expansion(addr),
            Mapper::Ntdec112(m) => None,
            Mapper::Tf1201(m) => None,
            _ => self.peek_expansion_3(addr),
        }
    }

    fn peek_expansion_3(&self, addr: u16) -> (r: Option<u8>)
        requires self.wf(),
        ensures r == self.peek_expansion_spec_3(addr),
    {
        match self {
            Mapper::TxcMapper(m) => None,
            Mapper::Namco118(m) => None,
            Mapper::Namco108Mapper95(m) => None,
            Mapper::Namco108Mapper206(m) => None,
            Mapper::Namco108Mapper154(m) => None,
            Mapper::Mapper103(m) => None,
            Mapper::Mapper120(m) => None,
            Mapper::Mapper104(m) => None,
            Mapper::Mapper108(m) => None,
            Mapper::Mapper190(m) => None,
            Mapper::Mapper168(m) => None,
            Mapper::Mapper170(m) => None,
            Mapper::Mapper177(m) => None,
            Mapper::Mapper230(m) => None,
            Mapper::Mapper233(m) => None,
            Mapper::Mapper116(m) => None,
            _ => self.peek_expansion_4(addr),
        }
    }

    fn peek_expansion_4(&self, addr: u16) -> (r: Option<u8>)
        requires self.wf(),
        ensures r == self.peek_expansion_spec_4(addr),
    {
        match self {
            Mapper::TaitoTc0190(m) => None,
            Mapper::TaitoX1005(m) => None,
            Mapper::TaitoX1017(m) => None,
            Mapper::ActionEnterprises(m) => m.peek_expansion(addr),
            Mapper::AddrLatch16k(m) => m.peek_expansion(addr),
            Mapper::BandaiFcg(m) => None,
            Mapper::Mapper15(m) => None,
            Mapper::Action53(m) => None,
            Mapper::Mapper53(m) => None,
            Mapper::Mapper51(m) => None,
            Mapper::Mapper57(m) => None,
            Mapper::Mapper63(m) => None,
            Mapper::Mapper128(m) => None,
            Mapper::Mapper226(m) => None,
            Mapper::Mapper240(m) => None,
            Mapper::Mapper241(m) => None,
            _ => self.peek_expansion_5(addr),
        }
    }

    fn peek_expansion_5(&self, addr: u16) -> (r: Option<u8>)
        requires self.wf(),
        ensures r == self.peek_expansion_spec_5(addr),
    {
        match self {
            Mapper::Mapper244(m) => None,
            Mapper::Mapper246(m) => None,
            Mapper::Mapper236(m) => None,
            Mapper::Mapper237(m) => None,
            Mapper::Mapper31(m) => None,
            Mapper::Mapper96(m) => None,
            Mapper::Nina03_06(m) => None,
            Mapper::Caltron41(m) => None,
            Mapper::ColorDreams46(m) => None,
            Mapper::Mapper151(m) => None,
            Mapper::JalecoJf16(m) => None,
            Mapper::JalecoJfxx(m) => None,
            Mapper::JalecoJf13(m) => None,
            Mapper::UnromVariantMapper(m) => None,
            Mapper::IremG101(m) => None,
            Mapper::IremLrog017(m) => None,
            _ => self.peek_expansion_6(addr),
        }
    }

    fn peek_expansion_6(&self, addr: u16) -> (r: Option<u8>)
        requires self.wf(),
        ensures r == self.peek_expansion_spec_6(addr),
    {
        match self {
            Mapper::IremTamS1(m) => None,
            Mapper::Vrc1(m) => None,
            Mapper::Mapper18(m) => None,
            Mapper::Mapper40(m) => None,
            Mapper::Mapper42(m) => None,
            Mapper::Mapper50(m) => None,
            Mapper::Mapper65(m) => None,
            Mapper::Mapper67(m) => None,
            Mapper::Mapper73(m) => None,
            Mapper::Mapper117(m) => None,
            Mapper::Mapper175(m) => None,
            Mapper::Mapper234(m) => None,
            Mapper::Mapper60(m) => None,
            Mapper::Mapper83(m) => m.peek_expansion(addr),
            Mapper::Mapper183(m) => None,
            Mapper::Mapper212(m) => None,
            _ => self.peek_expansion_7(addr),
        }
    }

    fn peek_expansion_7(&self, addr: u16) -> (r: Option<u8>)
        requires self.wf(),
        ensures r == self.peek_expansion_spec_7(addr),
    {
        match self {
            Mapper::Mapper222(m) => None,
            Mapper::Mapper235(m) => None,
            Mapper::Mapper272(m) => None,
            Mapper::Mapper330(m) => None,
            Mapper::Mapper91(m) => None,
            Mapper::JyAsic(m) => None,
            _ => None,
        }
    }

    pub open spec fn peek_register_with_open_bus_spec(&self, addr: u16, prg_value: u8, open_bus: u8) -> Option<u8> {
        match self {
            Mapper::Nrom(m) => None,
            Mapper::Unrom(m) => None,
            Mapper::Cnrom(m) => None,
            Mapper::Axrom(m) => None,
            Mapper::ColorDreams(m) => None,
            Mapper::Gxrom(m) => None,
            Mapper::Codemasters(m) => None,
            Mapper::Bf9096(m) => None,
            Mapper::Cprom(m) => None,
            Mapper::Bandai74161(m) => None,
            Mapper::Mapper36(m) => None,
            Mapper::Mapper81(m) => None,
            Mapper::Mapper8(m) => None,
            Mapper::Mapper99(m) => None,
            Mapper::Mapper29(m) => None,
            Mapper::UnlPci556(m) => None,
            _ => self.peek_register_with_open_bus_spec_1(addr, prg_value, open_bus),
        }
    }

    pub open spec fn peek_register_with_open_bus_spec_1(&self, addr: u16, prg_value: u8, open_bus: u8) -> Option<u8> {
        match self {
            Mapper::Mapper72(m) => None,
            Mapper::Mapper122(m) => None,
            Mapper::Mapper79(m) => None,
            Mapper::Mapper107(m) => None,
            Mapper::Mapper92(m) => None,
            Mapper::JalecoJf11_14(m) => None,
            Mapper::Mapper203(m) => None,
            Mapper::Mapper185(m) => None,
            Mapper::Mapper188(m) => None,
            Mapper::Mapper193(m) => None,
            Mapper::Mapper186(m) => None,
            Mapper::Mapper218(m) => None,
            Mapper::Bnrom(m) => None,
            Mapper::Nina01(m) => None,
            Mapper::Sachen133(m) => None,
            Mapper::SachenSa0161m(m) => None,
            _ => self.peek_register_with_open_bus_spec_2(addr, prg_value, open_bus),
        }
    }

    pub open spec fn peek_register_with_open_bus_spec_2(&self, addr: u16, prg_value: u8, open_bus: u8) -> Option<u8> {
        match self {
            Mapper::Sachen149(m) => None,
            Mapper::Sachen8259(m) => None,
            Mapper::Sachen74Ls374N(m) => None,
            Mapper::Sunsoft4(m) => None,
            Mapper::Sunsoft184(m) => None,
            Mapper::Sunsoft89(m) => None,
            Mapper::Mapper271(m) => None,
            Mapper::Mapper285(m) => None,
            Mapper::Mapper310(m) => None,
            Mapper::Mapper319(m) => None,
            Mapper::Mapper326(m) => None,
            Mapper::Mapper156(m) => None,
            Mapper::Subor166(m) => None,
            Mapper::NanjingMapper(m) => None,
            Mapper::Ntdec112(m) => None,
            Mapper::Tf1201(m) => None,
            _ => self.peek_register_with_open_bus_spec_3(addr, prg_value, open_bus),
        }
    }

    pub open spec fn peek_register_with_open_bus_spec_3(&self, addr: u16, prg_value: u8, open_bus: u8) -> Option<u8> {
        match self {
            Mapper::TxcMapper(m) => None,
            Mapper::Namco118(m) => None,
            Mapper::Namco108Mapper95(m) => None,
            Mapper::Namco108Mapper206(m) => None,
            Mapper::Namco108Mapper154(m) => None,
            Mapper::Mapper103(m) => None,
            Mapper::Mapper120(m) => None,
            Mapper::Mapper104(m) => None,
            Mapper::Mapper108(m) => None,
            Mapper::Mapper190(m) => None,
            Mapper::Mapper168(m) => None,
            Mapper::Mapper170(m) => None,
            Mapper::Mapper177(m) => None,
            Mapper::Mapper230(m) => None,
            Mapper::Mapper233(m) => None,
            Mapper::Mapper116(m) => None,
            _ => self.peek_register_with_open_bus_spec_4(addr, prg_value, open_bus),
        }
    }

    pub open spec fn peek_register_with_open_bus_spec_4(&self, addr: u16, prg_value: u8, open_bus: u8) -> Option<u8> {
        match self {
            Mapper::TaitoTc0190(m) => None,
            Mapper::TaitoX1005(m) => None,
            Mapper::TaitoX1017(m) => None,
            Mapper::ActionEnterprises(m) => None,
            Mapper::AddrLatch16k(m) => m.peek_register_with_open_bus(addr, prg_value, open_bus),
            Mapper::BandaiFcg(m) => None,
            Mapper::Mapper15(m) => None,
            Mapper::Action53(m) => None,
            Mapper::Mapper53(m) => None,
            Mapper::Mapper51(m) => None,
            Mapper::Mapper57(m) => None,
            Mapper::Mapper63(m) => m.peek_register_with_open_bus(addr, prg_value, open_bus),
            Mapper::Mapper128(m) => None,
            Mapper::Mapper226(m) => None,
            Mapper::Mapper240(m) => None,
            Mapper::Mapper241(m) => None,
            _ => self.peek_register_with_open_bus_spec_5(addr, prg_value, open_bus),
        }
    }

    pub open spec fn peek_register_with_open_bus_spec_5(&self, addr: u16, prg_value: u8, open_bus: u8) -> Option<u8> {
        match self {
            Mapper::Mapper244(m) => None,
            Mapper::Mapper246(m) => None,
            Mapper::Mapper236(m) => None,
            Mapper::Mapper237(m) => m.peek_register_with_open_bus(addr, prg_value, open_bus),
            Mapper::Mapper31(m) => None,
            Mapper::Mapper96(m) => None,
            Mapper::Nina03_06(m) => None,
            Mapper::Caltron41(m) => None,
            Mapper::ColorDreams46(m) => None,
            Mapper::Mapper151(m) => None,
            Mapper::JalecoJf16(m) => None,
            Mapper::JalecoJfxx(m) => None,
            Mapper::JalecoJf13(m) => None,
            Mapper::UnromVariantMapper(m) => None,
            Mapper::IremG101(m) => None,
            Mapper::IremLrog017(m) => None,
            _ => self.peek_register_with_open_bus_spec_6(addr, prg_value, open_bus),
        }
    }

    pub open spec fn peek_register_with_open_bus_spec_6(&self, addr: u16, prg_value: u8, open_bus: u8) -> Option<u8> {
        match self {
            Mapper::IremTamS1(m) => None,
            Mapper::Vrc1(m) => None,
            Mapper::Mapper18(m) => None,
            Mapper::Mapper40(m) => None,
            Mapper::Mapper42(m) => None,
            Mapper::Mapper50(m) => None,
            Mapper::Mapper65(m) => None,
            Mapper::Mapper67(m) => None,
            Mapper::Mapper73(m) => None,
            Mapper::Mapper117(m) => None,
            Mapper::Mapper175(m) => None,
            Mapper::Mapper234(m) => m.peek_register_with_open_bus(addr, prg_value, open_bus),
            Mapper::Mapper60(m) => None,
            Mapper::Mapper83(m) => None,
            Mapper::Mapper183(m) => None,
            Mapper::Mapper212(m) => None,
            _ => self.peek_register_with_open_bus_spec_7(addr, prg_value, open_bus),
        }
    }

    pub open spec fn peek_register_with_open_bus_spec_7(&self, addr: u16, prg_value: u8, open_bus: u8) -> Option<u8> {
        match self {
            Mapper::Mapper222(m) => None,
            Mapper::Mapper235(m) => m.peek_register_with_open_bus(addr, prg_value, open_bus),
            Mapper::Mapper272(m) => None,
            Mapper::Mapper330(m) => None,
            Mapper::Mapper91(m) => None,
            Mapper::JyAsic(m) => None,
            _ => None,
        }
    }

    /// A value the board drives over a $8000-$FFFF read of `prg_value` (with `open_bus` for a floating bus), if any.
    pub fn peek_register_with_open_bus(&self, addr: u16, prg_value: u8, open_bus: u8) -> (r: Option<u8>)
        requires self.wf(),
        ensures r == self.peek_register_with_open_bus_spec(addr, prg_value, open_bus),
    {
        match self {
            Mapper::Nrom(m) => None,
            Mapper::Unrom(m) => None,
            Mapper::Cnrom(m) => None,
            Mapper::Axrom(m) => None,
            Mapper::ColorDreams(m) => None,
            Mapper::Gxrom(m) => None,
            Mapper::Codemasters(m) => None,
            Mapper::Bf9096(m) => None,
            Mapper::Cprom(m) => None,
            Mapper::Bandai74161(m) => None,
            Mapper::Mapper36(m) => None,
            Mapper::Mapper81(m) => None,
            Mapper::Mapper8(m) => None,
            Mapper::Mapper99(m) => None,
            Mapper::Mapper29(m) => None,
            Mapper::UnlPci556(m) => None,
            _ => self.peek_register_with_open_bus_1(addr, prg_value, open_bus),
        }
    }

    fn peek_register_with_open_bus_1(&self, addr: u16, prg_value: u8, open_bus: u8) -> (r: Option<u8>)
        requires self.wf(),
        ensures r == self.peek_register_with_open_bus_spec_1(addr, prg_value, open_bus),
    {
        match self {
            Mapper::Mapper72(m) => None,
            Mapper::Mapper122(m) => None,
            Mapper::Mapper79(m) => None,
            Mapper::Mapper107(m) => None,
            Mapper::Mapper92(m) => None,
            Mapper::JalecoJf11_14(m) => None,
            Mapper::Mapper203(m) => None,
            Mapper::Mapper185(m) => None,
            Mapper::Mapper188(m) => None,
            Mapper::Mapper193(m) => None,
            Mapper::Mapper186(m) => None,
            Mapper::Mapper218(m) => None,
            Mapper::Bnrom(m) => None,
            Mapper::Nina01(m) => None,
            Mapper::Sachen133(m) => None,
            Mapper::SachenSa0161m(m) => None,
            _ => self.peek_register_with_open_bus_2(addr, prg_value, open_bus),
        }
    }

    fn peek_register_with_open_bus_2(&self, addr: u16, prg_value: u8, open_bus: u8) -> (r: Option<u8>)
        requires self.wf(),
        ensures r == self.peek_register_with_open_bus_spec_2(addr, prg_value, open_bus),
    {
        match self {
            Mapper::Sachen149(m) => None,
            Mapper::Sachen8259(m) => None,
            Mapper::Sachen74Ls374N(m) => None,
            Mapper::Sunsoft4(m) => None,
            Mapper::Sunsoft184(m) => None,
            Mapper::Sunsoft89(m) => None,
            Mapper::Mapper271(m) => None,
            Mapper::Mapper285(m) => None,
            Mapper::Mapper310(m) => None,
            Mapper::Mapper319(m) => None,
            Mapper::Mapper326(m) => None,
            Mapper::Mapper156(m) => None,
            Mapper::Subor166(m) => None,
            Mapper::NanjingMapper(m) => None,
            Mapper::Ntdec112(m) => None,
            Mapper::Tf1201(m) => None,
            _ => self.peek_register_with_open_bus_3(addr, prg_value, open_bus),
        }
    }

    fn peek_register_with_open_bus_3(&self, addr: u16, prg_value: u8, open_bus: u8) -> (r: Option<u8>)
        requires self.wf(),
        ensures r == self.peek_register_with_open_bus_spec_3(addr, prg_value, open_bus),
    {
        match self {
            Mapper::TxcMapper(m) => None,
            Mapper::Namco118(m) => None,
            Mapper::Namco108Mapper95(m) => None,
            Mapper::Namco108Mapper206(m) => None,
            Mapper::Namco108Mapper154(m) => None,
            Mapper::Mapper103(m) => None,
            Mapper::Mapper120(m) => None,
            Mapper::Mapper104(m) => None,
            Mapper::Mapper108(m) => None,
            Mapper::Mapper190(m) => None,
            Mapper::Mapper168(m) => None,
            Mapper::Mapper170(m) => None,
            Mapper::Mapper177(m) => None,
            Mapper::Mapper230(m) => None,
            Mapper::Mapper233(m) => None,
            Mapper::Mapper116(m) => None,
            _ => self.peek_register_with_open_bus_4(addr, prg_value, open_bus),
        }
    }

    fn peek_register_with_open_bus_4(&self, addr: u16, prg_value: u8, open_bus: u8) -> (r: Option<u8>)
        requires self.wf(),
        ensures r == self.peek_register_with_open_bus_spec_4(addr, prg_value, open_bus),
    {
        match self {
            Mapper::TaitoTc0190(m) => None,
            Mapper::TaitoX1005(m) => None,
            Mapper::TaitoX1017(m) => None,
            Mapper::ActionEnterprises(m) => None,
            Mapper::AddrLatch16k(m) => m.peek_register_with_open_bus(addr, prg_value, open_bus),
            Mapper::BandaiFcg(m) => None,
            Mapper::Mapper15(m) => None,
            Mapper::Action53(m) => None,
            Mapper::Mapper53(m) => None,
            Mapper::Mapper51(m) => None,
            Mapper::Mapper57(m) => None,
            Mapper::Mapper63(m) => m.peek_register_with_open_bus(addr, prg_value, open_bus),
            Mapper::Mapper128(m) => None,
            Mapper::Mapper226(m) => None,
            Mapper::Mapper240(m) => None,
            Mapper::Mapper241(m) => None,
            _ => self.peek_register_with_open_bus_5(addr, prg_value, open_bus),
        }
    }

    fn peek_register_with_open_bus_5(&self, addr: u16, prg_value: u8, open_bus: u8) -> (r: Option<u8>)
        requires self.wf(),
        ensures r == self.peek_register_with_open_bus_spec_5(addr, prg_value, open_bus),
    {
        match self {
            Mapper::Mapper244(m) => None,
            Mapper::Mapper246(m) => None,
            Mapper::Mapper236(m) => None,
            Mapper::Mapper237(m) => m.peek_register_with_open_bus(addr, prg_value, open_bus),
            Mapper::Mapper31(m) => None,
            Mapper::Mapper96(m) => None,
            Mapper::Nina03_06(m) => None,
            Mapper::Caltron41(m) => None,
            Mapper::ColorDreams46(m) => None,
            Mapper::Mapper151(m) => None,
            Mapper::JalecoJf16(m) => None,
            Mapper::JalecoJfxx(m) => None,
            Mapper::JalecoJf13(m) => None,
            Mapper::UnromVariantMapper(m) => None,
            Mapper::IremG101(m) => None,
            Mapper::IremLrog017(m) => None,
            _ => self.peek_register_with_open_bus_6(addr, prg_value, open_bus),
        }
    }

    fn peek_register_with_open_bus_6(&self, addr: u16, prg_value: u8, open_bus: u8) -> (r: Option<u8>)
        requires self.wf(),
        ensures r == self.peek_register_with_open_bus_spec_6(addr, prg_value, open_bus),
    {
        match self {
            Mapper::IremTamS1(m) => None,
            Mapper::Vrc1(m) => None,
            Mapper::Mapper18(m) => None,
            Mapper::Mapper40(m) => None,
            Mapper::Mapper42(m) => None,
            Mapper::Mapper50(m) => None,
            Mapper::Mapper65(m) => None,
            Mapper::Mapper67(m) => None,
            Mapper::Mapper73(m) => None,
            Mapper::Mapper117(m) => None,
            Mapper::Mapper175(m) => None,
            Mapper::Mapper234(m) => m.peek_register_with_open_bus(addr, prg_value, open_bus),
            Mapper::Mapper60(m) => None,
            Mapper::Mapper83(m) => None,
            Mapper::Mapper183(m) => None,
            Mapper::Mapper212(m) => None,
            _ => self.peek_register_with_open_bus_7(addr, prg_value, open_bus),
        }
    }

    fn peek_register_with_open_bus_7(&self, addr: u16, prg_value: u8, open_bus: u8) -> (r: Option<u8>)
        requires self.wf(),
        ensures r == self.peek_register_with_open_bus_spec_7(addr, prg_value, open_bus),
    {
        match self {
            Mapper::Mapper222(m) => None,
            Mapper::Mapper235(m) => m.peek_register_with_open_bus(addr, prg_value, open_bus),
            Mapper::Mapper272(m) => None,
            Mapper::Mapper330(m) => None,
            Mapper::Mapper91(m) => None,
            Mapper::JyAsic(m) => None,
            _ => None,
        }
    }

    pub open spec fn peek_low_register_with_open_bus_spec(&self, addr: u16, prg_ram_value: u8, open_bus: u8) -> Option<u8> {
        match self {
            Mapper::Nrom(m) => None,
            Mapper::Unrom(m) => None,
            Mapper::Cnrom(m) => None,
            Mapper::Axrom(m) => None,
            Mapper::ColorDreams(m) => None,
            Mapper::Gxrom(m) => None,
            Mapper::Codemasters(m) => None,
            Mapper::Bf9096(m) => None,
            Mapper::Cprom(m) => None,
            Mapper::Bandai74161(m) => None,
            Mapper::Mapper36(m) => None,
            Mapper::Mapper81(m) => None,
            Mapper::Mapper8(m) => None,
            Mapper::Mapper99(m) => None,
            Mapper::Mapper29(m) => None,
            Mapper::UnlPci556(m) => None,
            _ => self.peek_low_register_with_open_bus_spec_1(addr, prg_ram_value, open_bus),
        }
    }

    pub open spec fn peek_low_register_with_open_bus_spec_1(&self, addr: u16, prg_ram_value: u8, open_bus: u8) -> Option<u8> {
        match self {
            Mapper::Mapper72(m) => None,
            Mapper::Mapper122(m) => None,
            Mapper::Mapper79(m) => None,
            Mapper::Mapper107(m) => None,
            Mapper::Mapper92(m) => None,
            Mapper::JalecoJf11_14(m) => None,
            Mapper::Mapper203(m) => None,
            Mapper::Mapper185(m) => None,
            Mapper::Mapper188(m) => m.peek_low_register(addr),
            Mapper::Mapper193(m) => None,
            Mapper::Mapper186(m) => m.peek_low_register(addr),
            Mapper::Mapper218(m) => None,
            Mapper::Bnrom(m) => None,
            Mapper::Nina01(m) => None,
            Mapper::Sachen133(m) => None,
            Mapper::SachenSa0161m(m) => None,
            _ => self.peek_low_register_with_open_bus_spec_2(addr, prg_ram_value, open_bus),
        }
    }

    pub open spec fn peek_low_register_with_open_bus_spec_2(&self, addr: u16, prg_ram_value: u8, open_bus: u8) -> Option<u8> {
        match self {
            Mapper::Sachen149(m) => None,
            Mapper::Sachen8259(m) => None,
            Mapper::Sachen74Ls374N(m) => None,
            Mapper::Sunsoft4(m) => None,
            Mapper::Sunsoft184(m) => None,
            Mapper::Sunsoft89(m) => None,
            Mapper::Mapper271(m) => None,
            Mapper::Mapper285(m) => None,
            Mapper::Mapper310(m) => None,
            Mapper::Mapper319(m) => None,
            Mapper::Mapper326(m) => None,
            Mapper::Mapper156(m) => None,
            Mapper::Subor166(m) => None,
            Mapper::NanjingMapper(m) => None,
            Mapper::Ntdec112(m) => None,
            Mapper::Tf1201(m) => None,
            _ => self.peek_low_register_with_open_bus_spec_3(addr, prg_ram_value, open_bus),
        }
    }

    pub open spec fn peek_low_register_with_open_bus_spec_3(&self, addr: u16, prg_ram_value: u8, open_bus: u8) -> Option<u8> {
        match self {
            Mapper::TxcMapper(m) => None,
            Mapper::Namco118(m) => None,
            Mapper::Namco108Mapper95(m) => None,
            Mapper::Namco108Mapper206(m) => None,
            Mapper::Namco108Mapper154(m) => None,
            Mapper::Mapper103(m) => None,
            Mapper::Mapper120(m) => None,
            Mapper::Mapper104(m) => None,
            Mapper::Mapper108(m) => None,
            Mapper::Mapper190(m) => None,
            Mapper::Mapper168(m) => None,
            Mapper::Mapper170(m) => m.peek_low_register(addr),
            Mapper::Mapper177(m) => None,
            Mapper::Mapper230(m) => None,
            Mapper::Mapper233(m) => None,
            Mapper::Mapper116(m) => None,
            _ => self.peek_low_register_with_open_bus_spec_4(addr, prg_ram_value, open_bus),
        }
    }

    pub open spec fn peek_low_register_with_open_bus_spec_4(&self, addr: u16, prg_ram_value: u8, open_bus: u8) -> Option<u8> {
        match self {
            Mapper::TaitoTc0190(m) => None,
            Mapper::TaitoX1005(m) => m.peek_low_register(addr),
            Mapper::TaitoX1017(m) => None,
            Mapper::ActionEnterprises(m) => None,
            Mapper::AddrLatch16k(m) => None,
            Mapper::BandaiFcg(m) => m.peek_low_register_with_open_bus(addr, prg_ram_value, open_bus),
            Mapper::Mapper15(m) => None,
            Mapper::Action53(m) => None,
            Mapper::Mapper53(m) => None,
            Mapper::Mapper51(m) => None,
            Mapper::Mapper57(m) => None,
            Mapper::Mapper63(m) => None,
            Mapper::Mapper128(m) => None,
            Mapper::Mapper226(m) => None,
            Mapper::Mapper240(m) => None,
            Mapper::Mapper241(m) => None,
            _ => self.peek_low_register_with_open_bus_spec_5(addr, prg_ram_value, open_bus),
        }
    }

    pub open spec fn peek_low_register_with_open_bus_spec_5(&self, addr: u16, prg_ram_value: u8, open_bus: u8) -> Option<u8> {
        match self {
            Mapper::Mapper244(m) => None,
            Mapper::Mapper246(m) => None,
            Mapper::Mapper236(m) => None,
            Mapper::Mapper237(m) => None,
            Mapper::Mapper31(m) => None,
            Mapper::Mapper96(m) => None,
            Mapper::Nina03_06(m) => None,
            Mapper::Caltron41(m) => None,
            Mapper::ColorDreams46(m) => None,
            Mapper::Mapper151(m) => None,
            Mapper::JalecoJf16(m) => None,
            Mapper::JalecoJfxx(m) => None,
            Mapper::JalecoJf13(m) => None,
            Mapper::UnromVariantMapper(m) => None,
            Mapper::IremG101(m) => None,
            Mapper::IremLrog017(m) => None,
            _ => self.peek_low_register_with_open_bus_spec_6(addr, prg_ram_value, open_bus),
        }
    }

    pub open spec fn peek_low_register_with_open_bus_spec_6(&self, addr: u16, prg_ram_value: u8, open_bus: u8) -> Option<u8> {
        match self {
            Mapper::IremTamS1(m) => None,
            Mapper::Vrc1(m) => None,
            Mapper::Mapper18(m) => None,
            Mapper::Mapper40(m) => None,
            Mapper::Mapper42(m) => None,
            Mapper::Mapper50(m) => None,
            Mapper::Mapper65(m) => None,
            Mapper::Mapper67(m) => None,
            Mapper::Mapper73(m) => None,
            Mapper::Mapper117(m) => None,
            Mapper::Mapper175(m) => None,
            Mapper::Mapper234(m) => None,
            Mapper::Mapper60(m) => None,
            Mapper::Mapper83(m) => None,
            Mapper::Mapper183(m) => None,
            Mapper::Mapper212(m) => m.peek_low_register_with_open_bus(addr, prg_ram_value, open_bus),
            _ => self.peek_low_register_with_open_bus_spec_7(addr, prg_ram_value, open_bus),
        }
    }

    pub open spec fn peek_low_register_with_open_bus_spec_7(&self, addr: u16, prg_ram_value: u8, open_bus: u8) -> Option<u8> {
        match self {
            Mapper::Mapper222(m) => None,
            Mapper::Mapper235(m) => None,
            Mapper::Mapper272(m) => None,
            Mapper::Mapper330(m) => None,
            Mapper::Mapper91(m) => None,
            Mapper::JyAsic(m) => None,
            _ => None,
        }
    }

    /// A value the board drives over a $6000-$7FFF read (given the PRG-RAM byte there and the open bus), if any.
    pub fn peek_low_register_with_open_bus(&self, addr: u16, prg_ram_value: u8, open_bus: u8) -> (r: Option<u8>)
        requires self.wf(),
        ensures r == self.peek_low_register_with_open_bus_spec(addr, prg_ram_value, open_bus),
    {
        match self {
            Mapper::Nrom(m) => None,
            Mapper::Unrom(m) => None,
            Mapper::Cnrom(m) => None,
            Mapper::Axrom(m) => None,
            Mapper::ColorDreams(m) => None,
            Mapper::Gxrom(m) => None,
            Mapper::Codemasters(m) => None,
            Mapper::Bf9096(m) => None,
            Mapper::Cprom(m) => None,
            Mapper::Bandai74161(m) => None,
            Mapper::Mapper36(m) => None,
            Mapper::Mapper81(m) => None,
            Mapper::Mapper8(m) => None,
            Mapper::Mapper99(m) => None,
            Mapper::Mapper29(m) => None,
            Mapper::UnlPci556(m) => None,
            _ => self.peek_low_register_with_open_bus_1(addr, prg_ram_value, open_bus),
        }
    }

    fn peek_low_register_with_open_bus_1(&self, addr: u16, prg_ram_value: u8, open_bus: u8) -> (r: Option<u8>)
        requires self.wf(),
        ensures r == self.peek_low_register_with_open_bus_spec_1(addr, prg_ram_value, open_bus),
    {
        match self {
            Mapper::Mapper72(m) => None,
            Mapper::Mapper122(m) => None,
            Mapper::Mapper79(m) => None,
            Mapper::Mapper107(m) => None,
            Mapper::Mapper92(m) => None,
            Mapper::JalecoJf11_14(m) => None,
            Mapper::Mapper203(m) => None,
            Mapper::Mapper185(m) => None,
            Mapper::Mapper188(m) => m.peek_low_register(addr),
            Mapper::Mapper193(m) => None,
            Mapper::Mapper186(m) => m.peek_low_register(addr),
            Mapper::Mapper218(m) => None,
            Mapper::Bnrom(m) => None,
            Mapper::Nina01(m) => None,
            Mapper::Sachen133(m) => None,
            Mapper::SachenSa0161m(m) => None,
            _ => self.peek_low_register_with_open_bus_2(addr, prg_ram_value, open_bus),
        }
    }

    fn peek_low_register_with_open_bus_2(&self, addr: u16, prg_ram_value: u8, open_bus: u8) -> (r: Option<u8>)
        requires self.wf(),
        ensures r == self.peek_low_register_with_open_bus_spec_2(addr, prg_ram_value, open_bus),
    {
        match self {
            Mapper::Sachen149(m) => None,
            Mapper::Sachen8259(m) => None,
            Mapper::Sachen74Ls374N(m) => None,
            Mapper::Sunsoft4(m) => None,
            Mapper::Sunsoft184(m) => None,
            Mapper::Sunsoft89(m) => None,
            Mapper::Mapper271(m) => None,
            Mapper::Mapper285(m) => None,
            Mapper::Mapper310(m) => None,
            Mapper::Mapper319(m) => None,
            Mapper::Mapper326(m) => None,
            Mapper::Mapper156(m) => None,
            Mapper::Subor166(m) => None,
            Mapper::NanjingMapper(m) => None,
            Mapper::Ntdec112(m) => None,
            Mapper::Tf1201(m) => None,
            _ => self.peek_low_register_with_open_bus_3(addr, prg_ram_value, open_bus),
        }
    }

    fn peek_low_register_with_open_bus_3(&self, addr: u16, prg_ram_value: u8, open_bus: u8) -> (r: Option<u8>)
        requires self.wf(),
        ensures r == self.peek_low_register_with_open_bus_spec_3(addr, prg_ram_value, open_bus),
    {
        match self {
            Mapper::TxcMapper(m) => None,
            Mapper::Namco118(m) => None,
            Mapper::Namco108Mapper95(m) => None,
            Mapper::Namco108Mapper206(m) => None,
            Mapper::Namco108Mapper154(m) => None,
            Mapper::Mapper103(m) => None,
            Mapper::Mapper120(m) => None,
            Mapper::Mapper104(m) => None,
            Mapper::Mapper108(m) => None,
            Mapper::Mapper190(m) => None,
            Mapper::Mapper168(m) => None,
            Mapper::Mapper170(m) => m.peek_low_register(addr),
            Mapper::Mapper177(m) => None,
            Mapper::Mapper230(m) => None,
            Mapper::Mapper233(m) => None,
            Mapper::Mapper116(m) => None,
            _ => self.peek_low_register_with_open_bus_4(addr, prg_ram_value, open_bus),
        }
    }

    fn peek_low_register_with_open_bus_4(&self, addr: u16, prg_ram_value: u8, open_bus: u8) -> (r: Option<u8>)
        requires self.wf(),
        ensures r == self.peek_low_register_with_open_bus_spec_4(addr, prg_ram_value, open_bus),
    {
        match self {
            Mapper::TaitoTc0190(m) => None,
            Mapper::TaitoX1005(m) => m.peek_low_register(addr),
            Mapper::TaitoX1017(m) => None,
            Mapper::ActionEnterprises(m) => None,
            Mapper::AddrLatch16k(m) => None,
            Mapper::BandaiFcg(m) => m.peek_low_register_with_open_bus(addr, prg_ram_value, open_bus),
            Mapper::Mapper15(m) => None,
            Mapper::Action53(m) => None,
            Mapper::Mapper53(m) => None,
            Mapper::Mapper51(m) => None,
            Mapper::Mapper57(m) => None,
            Mapper::Mapper63(m) => None,
            Mapper::Mapper128(m) => None,
            Mapper::Mapper226(m) => None,
            Mapper::Mapper240(m) => None,
            Mapper::Mapper241(m) => None,
            _ => self.peek_low_register_with_open_bus_5(addr, prg_ram_value, open_bus),
        }
    }

    fn peek_low_register_with_open_bus_5(&self, addr: u16, prg_ram_value: u8, open_bus: u8) -> (r: Option<u8>)
        requires self.wf(),
        ensures r == self.peek_low_register_with_open_bus_spec_5(addr, prg_ram_value, open_bus),
    {
        match self {
            Mapper::Mapper244(m) => None,
            Mapper::Mapper246(m) => None,
            Mapper::Mapper236(m) => None,
            Mapper::Mapper237(m) => None,
            Mapper::Mapper31(m) => None,
            Mapper::Mapper96(m) => None,
            Mapper::Nina03_06(m) => None,
            Mapper::Caltron41(m) => None,
            Mapper::ColorDreams46(m) => None,
            Mapper::Mapper151(m) => None,
            Mapper::JalecoJf16(m) => None,
            Mapper::JalecoJfxx(m) => None,
            Mapper::JalecoJf13(m) => None,
            Mapper::UnromVariantMapper(m) => None,
            Mapper::IremG101(m) => None,
            Mapper::IremLrog017(m) => None,
            _ => self.peek_low_register_with_open_bus_6(addr, prg_ram_value, open_bus),
        }
    }

    fn peek_low_register_with_open_bus_6(&self, addr: u16, prg_ram_value: u8, open_bus: u8) -> (r: Option<u8>)
        requires self.wf(),
        ensures r == self.peek_low_register_with_open_bus_spec_6(addr, prg_ram_value, open_bus),
    {
        match self {
            Mapper::IremTamS1(m) => None,
            Mapper::Vrc1(m) => None,
            Mapper::Mapper18(m) => None,
            Mapper::Mapper40(m) => None,
            Mapper::Mapper42(m) => None,
            Mapper::Mapper50(m) => None,
            Mapper::Mapper65(m) => None,
            Mapper::Mapper67(m) => None,
            Mapper::Mapper73(m) => None,
            Mapper::Mapper117(m) => None,
            Mapper::Mapper175(m) => None,
            Mapper::Mapper234(m) => None,
            Mapper::Mapper60(m) => None,
            Mapper::Mapper83(m) => None,
            Mapper::Mapper183(m) => None,
            Mapper::Mapper212(m) => m.peek_low_register_with_open_bus(addr, prg_ram_value, open_bus),
            _ => self.peek_low_register_with_open_bus_7(addr, prg_ram_value, open_bus),
        }
    }

    fn peek_low_register_with_open_bus_7(&self, addr: u16, prg_ram_value: u8, open_bus: u8) -> (r: Option<u8>)
        requires self.wf(),
        ensures r == self.peek_low_register_with_open_bus_spec_7(addr, prg_ram_value, open_bus),
    {
        match self {
            Mapper::Mapper222(m) => None,
            Mapper::Mapper235(m) => None,
            Mapper::Mapper272(m) => None,
            Mapper::Mapper330(m) => None,
            Mapper::Mapper91(m) => None,
            Mapper::JyAsic(m) => None,
            _ => None,
        }
    }

    pub open spec fn low_prg_index_spec(&self, addr: u16) -> Option<usize> {
        match self {
            Mapper::Nrom(m) => None,
            Mapper::Unrom(m) => None,
            Mapper::Cnrom(m) => None,
            Mapper::Axrom(m) => None,
            Mapper::ColorDreams(m) => None,
            Mapper::Gxrom(m) => None,
            Mapper::Codemasters(m) => None,
            Mapper::Bf9096(m) => None,
            Mapper::Cprom(m) => None,
            Mapper::Bandai74161(m) => None,
            Mapper::Mapper36(m) => None,
            Mapper::Mapper81(m) => None,
            Mapper::Mapper8(m) => None,
            Mapper::Mapper99(m) => None,
            Mapper::Mapper29(m) => None,
            Mapper::UnlPci556(m) => None,
            _ => self.low_prg_index_spec_1(addr),
        }
    }

    pub open spec fn low_prg_index_spec_1(&self, addr: u16) -> Option<usize> {
        match self {
            Mapper::Mapper72(m) => None,
            Mapper::Mapper122(m) => None,
            Mapper::Mapper79(m) => None,
            Mapper::Mapper107(m) => None,
            Mapper::Mapper92(m) => None,
            Mapper::JalecoJf11_14(m) => None,
            Mapper::Mapper203(m) => None,
            Mapper::Mapper185(m) => None,
            Mapper::Mapper188(m) => None,
            Mapper::Mapper193(m) => None,
            Mapper::Mapper186(m) => None,
            Mapper::Mapper218(m) => None,
            Mapper::Bnrom(m) => None,
            Mapper::Nina01(m) => None,
            Mapper::Sachen133(m) => None,
            Mapper::SachenSa0161m(m) => None,
            _ => self.low_prg_index_spec_2(addr),
        }
    }

    pub open spec fn low_prg_index_spec_2(&self, addr: u16) -> Option<usize> {
        match self {
            Mapper::Sachen149(m) => None,
            Mapper::Sachen8259(m) => None,
            Mapper::Sachen74Ls374N(m) => None,
            Mapper::Sunsoft4(m) => None,
            Mapper::Sunsoft184(m) => None,
            Mapper::Sunsoft89(m) => None,
            Mapper::Mapper271(m) => None,
            Mapper::Mapper285(m) => None,
            Mapper::Mapper310(m) => None,
            Mapper::Mapper319(m) => None,
            Mapper::Mapper326(m) => None,
            Mapper::Mapper156(m) => None,
            Mapper::Subor166(m) => None,
            Mapper::NanjingMapper(m) => None,
            Mapper::Ntdec112(m) => None,
            Mapper::Tf1201(m) => None,
            _ => self.low_prg_index_spec_3(addr),
        }
    }

    pub open spec fn low_prg_index_spec_3(&self, addr: u16) -> Option<usize> {
        match self {
            Mapper::TxcMapper(m) => None,
            Mapper::Namco118(m) => None,
            Mapper::Namco108Mapper95(m) => None,
            Mapper::Namco108Mapper206(m) => None,
            Mapper::Namco108Mapper154(m) => None,
            Mapper::Mapper103(m) => m.low_prg_index(addr),
            Mapper::Mapper120(m) => m.low_prg_index(addr),
            Mapper::Mapper104(m) => None,
            Mapper::Mapper108(m) => m.low_prg_index(addr),
            Mapper::Mapper190(m) => None,
            Mapper::Mapper168(m) => None,
            Mapper::Mapper170(m) => None,
            Mapper::Mapper177(m) => None,
            Mapper::Mapper230(m) => None,
            Mapper::Mapper233(m) => None,
            Mapper::Mapper116(m) => None,
            _ => self.low_prg_index_spec_4(addr),
        }
    }

    pub open spec fn low_prg_index_spec_4(&self, addr: u16) -> Option<usize> {
        match self {
            Mapper::TaitoTc0190(m) => None,
            Mapper::TaitoX1005(m) => None,
            Mapper::TaitoX1017(m) => None,
            Mapper::ActionEnterprises(m) => None,
            Mapper::AddrLatch16k(m) => None,
            Mapper::BandaiFcg(m) => None,
            Mapper::Mapper15(m) => None,
            Mapper::Action53(m) => None,
            Mapper::Mapper53(m) => m.low_prg_index(addr),
            Mapper::Mapper51(m) => m.low_prg_index(addr),
            Mapper::Mapper57(m) => None,
            Mapper::Mapper63(m) => None,
            Mapper::Mapper128(m) => None,
            Mapper::Mapper226(m) => None,
            Mapper::Mapper240(m) => None,
            Mapper::Mapper241(m) => None,
            _ => self.low_prg_index_spec_5(addr),
        }
    }

    pub open spec fn low_prg_index_spec_5(&self, addr: u16) -> Option<usize> {
        match self {
            Mapper::Mapper244(m) => None,
            Mapper::Mapper246(m) => None,
            Mapper::Mapper236(m) => None,
            Mapper::Mapper237(m) => None,
            Mapper::Mapper31(m) => None,
            Mapper::Mapper96(m) => None,
            Mapper::Nina03_06(m) => None,
            Mapper::Caltron41(m) => None,
            Mapper::ColorDreams46(m) => None,
            Mapper::Mapper151(m) => None,
            Mapper::JalecoJf16(m) => None,
            Mapper::JalecoJfxx(m) => None,
            Mapper::JalecoJf13(m) => None,
            Mapper::UnromVariantMapper(m) => None,
            Mapper::IremG101(m) => None,
            Mapper::IremLrog017(m) => None,
            _ => self.low_prg_index_spec_6(addr),
        }
    }

    pub open spec fn low_prg_index_spec_6(&self, addr: u16) -> Option<usize> {
        match self {
            Mapper::IremTamS1(m) => None,
            Mapper::Vrc1(m) => None,
            Mapper::Mapper18(m) => None,
            Mapper::Mapper40(m) => m.low_prg_index(addr),
            Mapper::Mapper42(m) => m.low_prg_index(addr),
            Mapper::Mapper50(m) => m.low_prg_index(addr),
            Mapper::Mapper65(m) => None,
            Mapper::Mapper67(m) => None,
            Mapper::Mapper73(m) => None,
            Mapper::Mapper117(m) => None,
            Mapper::Mapper175(m) => None,
            Mapper::Mapper234(m) => None,
            Mapper::Mapper60(m) => None,
            Mapper::Mapper83(m) => None,
            Mapper::Mapper183(m) => m.low_prg_index(addr),
            Mapper::Mapper212(m) => None,
            _ => self.low_prg_index_spec_7(addr),
        }
    }

    pub open spec fn low_prg_index_spec_7(&self, addr: u16) -> Option<usize> {
        match self {
            Mapper::Mapper222(m) => None,
            Mapper::Mapper235(m) => None,
            Mapper::Mapper272(m) => None,
            Mapper::Mapper330(m) => None,
            Mapper::Mapper91(m) => None,
            Mapper::JyAsic(m) => m.low_prg_index(addr),
            _ => None,
        }
    }

    /// PRG-ROM index the board maps into $6000-$7FFF, if any.
    pub fn low_prg_index(&self, addr: u16) -> (r: Option<usize>)
        requires self.wf(),
        ensures r == self.low_prg_index_spec(addr),
    {
        match self {
            Mapper::Nrom(m) => None,
            Mapper::Unrom(m) => None,
            Mapper::Cnrom(m) => None,
            Mapper::Axrom(m) => None,
            Mapper::ColorDreams(m) => None,
            Mapper::Gxrom(m) => None,
            Mapper::Codemasters(m) => None,
            Mapper::Bf9096(m) => None,
            Mapper::Cprom(m) => None,
            Mapper::Bandai74161(m) => None,
            Mapper::Mapper36(m) => None,
            Mapper::Mapper81(m) => None,
            Mapper::Mapper8(m) => None,
            Mapper::Mapper99(m) => None,
            Mapper::Mapper29(m) => None,
            Mapper::UnlPci556(m) => None,
            _ => self.low_prg_index_1(addr),
        }
    }

    fn low_prg_index_1(&self, addr: u16) -> (r: Option<usize>)
        requires self.wf(),
        ensures r == self.low_prg_index_spec_1(addr),
    {
        match self {
            Mapper::Mapper72(m) => None,
            Mapper::Mapper122(m) => None,
            Mapper::Mapper79(m) => None,
            Mapper::Mapper107(m) => None,
            Mapper::Mapper92(m) => None,
            Mapper::JalecoJf11_14(m) => None,
            Mapper::Mapper203(m) => None,
            Mapper::Mapper185(m) => None,
            Mapper::Mapper188(m) => None,
            Mapper::Mapper193(m) => None,
            Mapper::Mapper186(m) => None,
            Mapper::Mapper218(m) => None,
            Mapper::Bnrom(m) => None,
            Mapper::Nina01(m) => None,
            Mapper::Sachen133(m) => None,
            Mapper::SachenSa0161m(m) => None,
            _ => self.low_prg_index_2(addr),
        }
    }

    fn low_prg_index_2(&self, addr: u16) -> (r: Option<usize>)
        requires self.wf(),
        ensures r == self.low_prg_index_spec_2(addr),
    {
        match self {
            Mapper::Sachen149(m) => None,
            Mapper::Sachen8259(m) => None,
            Mapper::Sachen74Ls374N(m) => None,
            Mapper::Sunsoft4(m) => None,
            Mapper::Sunsoft184(m) => None,
            Mapper::Sunsoft89(m) => None,
            Mapper::Mapper271(m) => None,
            Mapper::Mapper285(m) => None,
            Mapper::Mapper310(m) => None,
            Mapper::Mapper319(m) => None,
            Mapper::Mapper326(m) => None,
            Mapper::Mapper156(m) => None,
            Mapper::Subor166(m) => None,
            Mapper::NanjingMapper(m) => None,
            Mapper::Ntdec112(m) => None,
            Mapper::Tf1201(m) => None,
            _ => self.low_prg_index_3(addr),
        }
    }

    fn low_prg_index_3(&self, addr: u16) -> (r: Option<usize>)
        requires self.wf(),
        ensures r == self.low_prg_index_spec_3(addr),
    {
        match self {
            Mapper::TxcMapper(m) => None,
            Mapper::Namco118(m) => None,
            Mapper::Namco108Mapper95(m) => None,
            Mapper::Namco108Mapper206(m) => None,
            Mapper::Namco108Mapper154(m) => None,
            Mapper::Mapper103(m) => m.low_prg_index(addr),
            Mapper::Mapper120(m) => m.low_prg_index(addr),
            Mapper::Mapper104(m) => None,
            Mapper::Mapper108(m) => m.low_prg_index(addr),
            Mapper::Mapper190(m) => None,
            Mapper::Mapper168(m) => None,
            Mapper::Mapper170(m) => None,
            Mapper::Mapper177(m) => None,
            Mapper::Mapper230(m) => None,
            Mapper::Mapper233(m) => None,
            Mapper::Mapper116(m) => None,
            _ => self.low_prg_index_4(addr),
        }
    }

    fn low_prg_index_4(&self, addr: u16) -> (r: Option<usize>)
        requires self.wf(),
        ensures r == self.low_prg_index_spec_4(addr),
    {
        match self {
            Mapper::TaitoTc0190(m) => None,
            Mapper::TaitoX1005(m) => None,
            Mapper::TaitoX1017(m) => None,
            Mapper::ActionEnterprises(m) => None,
            Mapper::AddrLatch16k(m) => None,
            Mapper::BandaiFcg(m) => None,
            Mapper::Mapper15(m) => None,
            Mapper::Action53(m) => None,
            Mapper::Mapper53(m) => m.low_prg_index(addr),
            Mapper::Mapper51(m) => m.low_prg_index(addr),
            Mapper::Mapper57(m) => None,
            Mapper::Mapper63(m) => None,
            Mapper::Mapper128(m) => None,
            Mapper::Mapper226(m) => None,
            Mapper::Mapper240(m) => None,
            Mapper::Mapper241(m) => None,
            _ => self.low_prg_index_5(addr),
        }
    }

    fn low_prg_index_5(&self, addr: u16) -> (r: Option<usize>)
        requires self.wf(),
        ensures r == self.low_prg_index_spec_5(addr),
    {
        match self {
            Mapper::Mapper244(m) => None,
            Mapper::Mapper246(m) => None,
            Mapper::Mapper236(m) => None,
            Mapper::Mapper237(m) => None,
            Mapper::Mapper31(m) => None,
            Mapper::Mapper96(m) => None,
            Mapper::Nina03_06(m) => None,
            Mapper::Caltron41(m) => None,
            Mapper::ColorDreams46(m) => None,
            Mapper::Mapper151(m) => None,
            Mapper::JalecoJf16(m) => None,
            Mapper::JalecoJfxx(m) => None,
            Mapper::JalecoJf13(m) => None,
            Mapper::UnromVariantMapper(m) => None,
            Mapper::IremG101(m) => None,
            Mapper::IremLrog017(m) => None,
            _ => self.low_prg_index_6(addr),
        }
    }

    fn low_prg_index_6(&self, addr: u16) -> (r: Option<usize>)
        requires self.wf(),
        ensures r == self.low_prg_index_spec_6(addr),
    {
        match self {
            Mapper::IremTamS1(m) => None,
            Mapper::Vrc1(m) => None,
            Mapper::Mapper18(m) => None,
            Mapper::Mapper40(m) => m.low_prg_index(addr),
            Mapper::Mapper42(m) => m.low_prg_index(addr),
            Mapper::Mapper50(m) => m.low_prg_index(addr),
            Mapper::Mapper65(m) => None,
            Mapper::Mapper67(m) => None,
            Mapper::Mapper73(m) => None,
            Mapper::Mapper117(m) => None,
            Mapper::Mapper175(m) => None,
            Mapper::Mapper234(m) => None,
            Mapper::Mapper60(m) => None,
            Mapper::Mapper83(m) => None,
            Mapper::Mapper183(m) => m.low_prg_index(addr),
            Mapper::Mapper212(m) => None,
            _ => self.low_prg_index_7(addr),
        }
    }

    fn low_prg_index_7(&self, addr: u16) -> (r: Option<usize>)
        requires self.wf(),
        ensures r == self.low_prg_index_spec_7(addr),
    {
        match self {
            Mapper::Mapper222(m) => None,
            Mapper::Mapper235(m) => None,
            Mapper::Mapper272(m) => None,
            Mapper::Mapper330(m) => None,
            Mapper::Mapper91(m) => None,
            Mapper::JyAsic(m) => m.low_prg_index(addr),
            _ => None,
        }
    }

    pub open spec fn chr_read_spec(&self, addr: u16, access: ChrAccess) -> Option<u8> {
        match self {
            Mapper::Nrom(m) => None,
            Mapper::Unrom(m) => None,
            Mapper::Cnrom(m) => None,
            Mapper::Axrom(m) => None,
            Mapper::ColorDreams(m) => None,
            Mapper::Gxrom(m) => None,
            Mapper::Codemasters(m) => None,
            Mapper::Bf9096(m) => None,
            Mapper::Cprom(m) => None,
            Mapper::Bandai74161(m) => None,
            Mapper::Mapper36(m) => None,
            Mapper::Mapper81(m) => None,
            Mapper::Mapper8(m) => None,
            Mapper::Mapper99(m) => None,
            Mapper::Mapper29(m) => None,
            Mapper::UnlPci556(m) => None,
            _ => self.chr_read_spec_1(addr, access),
        }
    }

    pub open spec fn chr_read_spec_1(&self, addr: u16, access: ChrAccess) -> Option<u8> {
        match self {
            Mapper::Mapper72(m) => None,
            Mapper::Mapper122(m) => None,
            Mapper::Mapper79(m) => None,
            Mapper::Mapper107(m) => None,
            Mapper::Mapper92(m) => None,
            Mapper::JalecoJf11_14(m) => None,
            Mapper::Mapper203(m) => None,
            Mapper::Mapper185(m) => m.chr_read(addr, access),
            Mapper::Mapper188(m) => None,
            Mapper::Mapper193(m) => None,
            Mapper::Mapper186(m) => None,
            Mapper::Mapper218(m) => m.chr_read(addr, access),
            Mapper::Bnrom(m) => None,
            Mapper::Nina01(m) => None,
            Mapper::Sachen133(m) => None,
            Mapper::SachenSa0161m(m) => None,
            _ => self.chr_read_spec_2(addr, access),
        }
    }

    pub open spec fn chr_read_spec_2(&self, addr: u16, access: ChrAccess) -> Option<u8> {
        match self {
            Mapper::Sachen149(m) => None,
            Mapper::Sachen8259(m) => None,
            Mapper::Sachen74Ls374N(m) => None,
            Mapper::Sunsoft4(m) => None,
            Mapper::Sunsoft184(m) => None,
            Mapper::Sunsoft89(m) => None,
            Mapper::Mapper271(m) => None,
            Mapper::Mapper285(m) => None,
            Mapper::Mapper310(m) => None,
            Mapper::Mapper319(m) => None,
            Mapper::Mapper326(m) => None,
            Mapper::Mapper156(m) => None,
            Mapper::Subor166(m) => None,
            Mapper::NanjingMapper(m) => None,
            Mapper::Ntdec112(m) => None,
            Mapper::Tf1201(m) => None,
            _ => self.chr_read_spec_3(addr, access),
        }
    }

    pub open spec fn chr_read_spec_3(&self, addr: u16, access: ChrAccess) -> Option<u8> {
        match self {
            Mapper::TxcMapper(m) => None,
            Mapper::Namco118(m) => None,
            Mapper::Namco108Mapper95(m) => None,
            Mapper::Namco108Mapper206(m) => None,
            Mapper::Namco108Mapper154(m) => None,
            Mapper::Mapper103(m) => None,
            Mapper::Mapper120(m) => None,
            Mapper::Mapper104(m) => None,
            Mapper::Mapper108(m) => None,
            Mapper::Mapper190(m) => None,
            Mapper::Mapper168(m) => m.chr_read(addr, access),
            Mapper::Mapper170(m) => None,
            Mapper::Mapper177(m) => None,
            Mapper::Mapper230(m) => None,
            Mapper::Mapper233(m) => None,
            Mapper::Mapper116(m) => None,
            _ => self.chr_read_spec_4(addr, access),
        }
    }

    pub open spec fn chr_read_spec_4(&self, addr: u16, access: ChrAccess) -> Option<u8> {
        match self {
            Mapper::TaitoTc0190(m) => None,
            Mapper::TaitoX1005(m) => None,
            Mapper::TaitoX1017(m) => None,
            Mapper::ActionEnterprises(m) => None,
            Mapper::AddrLatch16k(m) => None,
            Mapper::BandaiFcg(m) => None,
            Mapper::Mapper15(m) => None,
            Mapper::Action53(m) => None,
            Mapper::Mapper53(m) => None,
            Mapper::Mapper51(m) => None,
            Mapper::Mapper57(m) => None,
            Mapper::Mapper63(m) => None,
            Mapper::Mapper128(m) => None,
            Mapper::Mapper226(m) => None,
            Mapper::Mapper240(m) => None,
            Mapper::Mapper241(m) => None,
            _ => self.chr_read_spec_5(addr, access),
        }
    }

    pub open spec fn chr_read_spec_5(&self, addr: u16, access: ChrAccess) -> Option<u8> {
        match self {
            Mapper::Mapper244(m) => None,
            Mapper::Mapper246(m) => None,
            Mapper::Mapper236(m) => None,
            Mapper::Mapper237(m) => None,
            Mapper::Mapper31(m) => None,
            Mapper::Mapper96(m) => None,
            Mapper::Nina03_06(m) => None,
            Mapper::Caltron41(m) => None,
            Mapper::ColorDreams46(m) => None,
            Mapper::Mapper151(m) => None,
            Mapper::JalecoJf16(m) => None,
            Mapper::JalecoJfxx(m) => None,
            Mapper::JalecoJf13(m) => None,
            Mapper::UnromVariantMapper(m) => None,
            Mapper::IremG101(m) => None,
            Mapper::IremLrog017(m) => m.chr_read(addr, access),
            _ => self.chr_read_spec_6(addr, access),
        }
    }

    pub open spec fn chr_read_spec_6(&self, addr: u16, access: ChrAccess) -> Option<u8> {
        match self {
            Mapper::IremTamS1(m) => None,
            Mapper::Vrc1(m) => None,
            Mapper::Mapper18(m) => None,
            Mapper::Mapper40(m) => None,
            Mapper::Mapper42(m) => None,
            Mapper::Mapper50(m) => None,
            Mapper::Mapper65(m) => None,
            Mapper::Mapper67(m) => None,
            Mapper::Mapper73(m) => None,
            Mapper::Mapper117(m) => None,
            Mapper::Mapper175(m) => None,
            Mapper::Mapper234(m) => None,
            Mapper::Mapper60(m) => None,
            Mapper::Mapper83(m) => None,
            Mapper::Mapper183(m) => None,
            Mapper::Mapper212(m) => None,
            _ => self.chr_read_spec_7(addr, access),
        }
    }

    pub open spec fn chr_read_spec_7(&self, addr: u16, access: ChrAccess) -> Option<u8> {
        match self {
            Mapper::Mapper222(m) => None,
            Mapper::Mapper235(m) => None,
            Mapper::Mapper272(m) => None,
            Mapper::Mapper330(m) => None,
            Mapper::Mapper91(m) => None,
            Mapper::JyAsic(m) => None,
            _ => None,
        }
    }

    /// A CHR byte the board supplies itself (overriding ROM/RAM), if any.
    pub fn chr_read(&self, addr: u16, access: ChrAccess) -> (r: Option<u8>)
        requires self.wf(),
        ensures r == self.chr_read_spec(addr, access),
    {
        match self {
            Mapper::Nrom(m) => None,
            Mapper::Unrom(m) => None,
            Mapper::Cnrom(m) => None,
            Mapper::Axrom(m) => None,
            Mapper::ColorDreams(m) => None,
            Mapper::Gxrom(m) => None,
            Mapper::Codemasters(m) => None,
            Mapper::Bf9096(m) => None,
            Mapper::Cprom(m) => None,
            Mapper::Bandai74161(m) => None,
            Mapper::Mapper36(m) => None,
            Mapper::Mapper81(m) => None,
            Mapper::Mapper8(m) => None,
            Mapper::Mapper99(m) => None,
            Mapper::Mapper29(m) => None,
            Mapper::UnlPci556(m) => None,
            _ => self.chr_read_1(addr, access),
        }
    }

    fn chr_read_1(&self, addr: u16, access: ChrAccess) -> (r: Option<u8>)
        requires self.wf(),
        ensures r == self.chr_read_spec_1(addr, access),
    {
        match self {
            Mapper::Mapper72(m) => None,
            Mapper::Mapper122(m) => None,
            Mapper::Mapper79(m) => None,
            Mapper::Mapper107(m) => None,
            Mapper::Mapper92(m) => None,
            Mapper::JalecoJf11_14(m) => None,
            Mapper::Mapper203(m) => None,
            Mapper::Mapper185(m) => m.chr_read(addr, access),
            Mapper::Mapper188(m) => None,
            Mapper::Mapper193(m) => None,
            Mapper::Mapper186(m) => None,
            Mapper::Mapper218(m) => m.chr_read(addr, access),
            Mapper::Bnrom(m) => None,
            Mapper::Nina01(m) => None,
            Mapper::Sachen133(m) => None,
            Mapper::SachenSa0161m(m) => None,
            _ => self.chr_read_2(addr, access),
        }
    }

    fn chr_read_2(&self, addr: u16, access: ChrAccess) -> (r: Option<u8>)
        requires self.wf(),
        ensures r == self.chr_read_spec_2(addr, access),
    {
        match self {
            Mapper::Sachen149(m) => None,
            Mapper::Sachen8259(m) => None,
            Mapper::Sachen74Ls374N(m) => None,
            Mapper::Sunsoft4(m) => None,
            Mapper::Sunsoft184(m) => None,
            Mapper::Sunsoft89(m) => None,
            Mapper::Mapper271(m) => None,
            Mapper::Mapper285(m) => None,
            Mapper::Mapper310(m) => None,
            Mapper::Mapper319(m) => None,
            Mapper::Mapper326(m) => None,
            Mapper::Mapper156(m) => None,
            Mapper::Subor166(m) => None,
            Mapper::NanjingMapper(m) => None,
            Mapper::Ntdec112(m) => None,
            Mapper::Tf1201(m) => None,
            _ => self.chr_read_3(addr, access),
        }
    }

    fn chr_read_3(&self, addr: u16, access: ChrAccess) -> (r: Option<u8>)
        requires self.wf(),
        ensures r == self.chr_read_spec_3(addr, access),
    {
        match self {
            Mapper::TxcMapper(m) => None,
            Mapper::Namco118(m) => None,
            Mapper::Namco108Mapper95(m) => None,
            Mapper::Namco108Mapper206(m) => None,
            Mapper::Namco108Mapper154(m) => None,
            Mapper::Mapper103(m) => None,
            Mapper::Mapper120(m) => None,
            Mapper::Mapper104(m) => None,
            Mapper::Mapper108(m) => None,
            Mapper::Mapper190(m) => None,
            Mapper::Mapper168(m) => m.chr_read(addr, access),
            Mapper::Mapper170(m) => None,
            Mapper::Mapper177(m) => None,
            Mapper::Mapper230(m) => None,
            Mapper::Mapper233(m) => None,
            Mapper::Mapper116(m) => None,
            _ => self.chr_read_4(addr, access),
        }
    }

    fn chr_read_4(&self, addr: u16, access: ChrAccess) -> (r: Option<u8>)
        requires self.wf(),
        ensures r == self.chr_read_spec_4(addr, access),
    {
        match self {
            Mapper::TaitoTc0190(m) => None,
            Mapper::TaitoX1005(m) => None,
            Mapper::TaitoX1017(m) => None,
            Mapper::ActionEnterprises(m) => None,
            Mapper::AddrLatch16k(m) => None,
            Mapper::BandaiFcg(m) => None,
            Mapper::Mapper15(m) => None,
            Mapper::Action53(m) => None,
            Mapper::Mapper53(m) => None,
            Mapper::Mapper51(m) => None,
            Mapper::Mapper57(m) => None,
            Mapper::Mapper63(m) => None,
            Mapper::Mapper128(m) => None,
            Mapper::Mapper226(m) => None,
            Mapper::Mapper240(m) => None,
            Mapper::Mapper241(m) => None,
            _ => self.chr_read_5(addr, access),
        }
    }

    fn chr_read_5(&self, addr: u16, access: ChrAccess) -> (r: Option<u8>)
        requires self.wf(),
        ensures r == self.chr_read_spec_5(addr, access),
    {
        match self {
            Mapper::Mapper244(m) => None,
            Mapper::Mapper246(m) => None,
            Mapper::Mapper236(m) => None,
            Mapper::Mapper237(m) => None,
            Mapper::Mapper31(m) => None,
            Mapper::Mapper96(m) => None,
            Mapper::Nina03_06(m) => None,
            Mapper::Caltron41(m) => None,
            Mapper::ColorDreams46(m) => None,
            Mapper::Mapper151(m) => None,
            Mapper::JalecoJf16(m) => None,
            Mapper::JalecoJfxx(m) => None,
            Mapper::JalecoJf13(m) => None,
            Mapper::UnromVariantMapper(m) => None,
            Mapper::IremG101(m) => None,
            Mapper::IremLrog017(m) => m.chr_read(addr, access),
            _ => self.chr_read_6(addr, access),
        }
    }

    fn chr_read_6(&self, addr: u16, access: ChrAccess) -> (r: Option<u8>)
        requires self.wf(),
        ensures r == self.chr_read_spec_6(addr, access),
    {
        match self {
            Mapper::IremTamS1(m) => None,
            Mapper::Vrc1(m) => None,
            Mapper::Mapper18(m) => None,
            Mapper::Mapper40(m) => None,
            Mapper::Mapper42(m) => None,
            Mapper::Mapper50(m) => None,
            Mapper::Mapper65(m) => None,
            Mapper::Mapper67(m) => None,
            Mapper::Mapper73(m) => None,
            Mapper::Mapper117(m) => None,
            Mapper::Mapper175(m) => None,
            Mapper::Mapper234(m) => None,
            Mapper::Mapper60(m) => None,
            Mapper::Mapper83(m) => None,
            Mapper::Mapper183(m) => None,
            Mapper::Mapper212(m) => None,
            _ => self.chr_read_7(addr, access),
        }
    }

    fn chr_read_7(&self, addr: u16, access: ChrAccess) -> (r: Option<u8>)
        requires self.wf(),
        ensures r == self.chr_read_spec_7(addr, access),
    {
        match self {
            Mapper::Mapper222(m) => None,
            Mapper::Mapper235(m) => None,
            Mapper::Mapper272(m) => None,
            Mapper::Mapper330(m) => None,
            Mapper::Mapper91(m) => None,
            Mapper::JyAsic(m) => None,
            _ => None,
        }
    }

    pub open spec fn has_chr_read_spec(&self) -> bool {
        match self {
            Mapper::Nrom(m) => false,
            Mapper::Unrom(m) => false,
            Mapper::Cnrom(m) => false,
            Mapper::Axrom(m) => false,
            Mapper::ColorDreams(m) => false,
            Mapper::Gxrom(m) => false,
            Mapper::Codemasters(m) => false,
            Mapper::Bf9096(m) => false,
            Mapper::Cprom(m) => false,
            Mapper::Bandai74161(m) => false,
            Mapper::Mapper36(m) => false,
            Mapper::Mapper81(m) => false,
            Mapper::Mapper8(m) => false,
            Mapper::Mapper99(m) => false,
            Mapper::Mapper29(m) => false,
            Mapper::UnlPci556(m) => false,
            _ => self.has_chr_read_spec_1(),
        }
    }

    pub open spec fn has_chr_read_spec_1(&self) -> bool {
        match self {
            Mapper::Mapper72(m) => false,
            Mapper::Mapper122(m) => false,
            Mapper::Mapper79(m) => false,
            Mapper::Mapper107(m) => false,
            Mapper::Mapper92(m) => false,
            Mapper::JalecoJf11_14(m) => false,
            Mapper::Mapper203(m) => false,
            Mapper::Mapper185(m) => m.has_chr_read(),
            Mapper::Mapper188(m) => false,
            Mapper::Mapper193(m) => false,
            Mapper::Mapper186(m) => false,
            Mapper::Mapper218(m) => m.has_chr_read(),
            Mapper::Bnrom(m) => false,
            Mapper::Nina01(m) => false,
            Mapper::Sachen133(m) => false,
            Mapper::SachenSa0161m(m) => false,
            _ => self.has_chr_read_spec_2(),
        }
    }

    pub open spec fn has_chr_read_spec_2(&self) -> bool {
        match self {
            Mapper::Sachen149(m) => false,
            Mapper::Sachen8259(m) => false,
            Mapper::Sachen74Ls374N(m) => false,
            Mapper::Sunsoft4(m) => false,
            Mapper::Sunsoft184(m) => false,
            Mapper::Sunsoft89(m) => false,
            Mapper::Mapper271(m) => false,
            Mapper::Mapper285(m) => false,
            Mapper::Mapper310(m) => false,
            Mapper::Mapper319(m) => false,
            Mapper::Mapper326(m) => false,
            Mapper::Mapper156(m) => false,
            Mapper::Subor166(m) => false,
            Mapper::NanjingMapper(m) => false,
            Mapper::Ntdec112(m) => false,
            Mapper::Tf1201(m) => false,
            _ => self.has_chr_read_spec_3(),
        }
    }

    pub open spec fn has_chr_read_spec_3(&self) -> bool {
        match self {
            Mapper::TxcMapper(m) => false,
            Mapper::Namco118(m) => false,
            Mapper::Namco108Mapper95(m) => false,
            Mapper::Namco108Mapper206(m) => false,
            Mapper::Namco108Mapper154(m) => false,
            Mapper::Mapper103(m) => false,
            Mapper::Mapper120(m) => false,
            Mapper::Mapper104(m) => false,
            Mapper::Mapper108(m) => false,
            Mapper::Mapper190(m) => false,
            Mapper::Mapper168(m) => m.has_chr_read(),
            Mapper::Mapper170(m) => false,
            Mapper::Mapper177(m) => false,
            Mapper::Mapper230(m) => false,
            Mapper::Mapper233(m) => false,
            Mapper::Mapper116(m) => false,
            _ => self.has_chr_read_spec_4(),
        }
    }

    pub open spec fn has_chr_read_spec_4(&self) -> bool {
        match self {
            Mapper::TaitoTc0190(m) => false,
            Mapper::TaitoX1005(m) => false,
            Mapper::TaitoX1017(m) => false,
            Mapper::ActionEnterprises(m) => false,
            Mapper::AddrLatch16k(m) => false,
            Mapper::BandaiFcg(m) => false,
            Mapper::Mapper15(m) => false,
            Mapper::Action53(m) => false,
            Mapper::Mapper53(m) => false,
            Mapper::Mapper51(m) => false,
            Mapper::Mapper57(m) => false,
            Mapper::Mapper63(m) => false,
            Mapper::Mapper128(m) => false,
            Mapper::Mapper226(m) => false,
            Mapper::Mapper240(m) => false,
            Mapper::Mapper241(m) => false,
            _ => self.has_chr_read_spec_5(),
        }
    }

    pub open spec fn has_chr_read_spec_5(&self) -> bool {
        match self {
            Mapper::Mapper244(m) => false,
            Mapper::Mapper246(m) => false,
            Mapper::Mapper236(m) => false,
            Mapper::Mapper237(m) => false,
            Mapper::Mapper31(m) => false,
            Mapper::Mapper96(m) => false,
            Mapper::Nina03_06(m) => false,
            Mapper::Caltron41(m) => false,
            Mapper::ColorDreams46(m) => false,
            Mapper::Mapper151(m) => false,
            Mapper::JalecoJf16(m) => false,
            Mapper::JalecoJfxx(m) => false,
            Mapper::JalecoJf13(m) => false,
            Mapper::UnromVariantMapper(m) => false,
            Mapper::IremG101(m) => false,
            Mapper::IremLrog017(m) => m.has_chr_read(),
            _ => self.has_chr_read_spec_6(),
        }
    }

    pub open spec fn has_chr_read_spec_6(&self) -> bool {
        match self {
            Mapper::IremTamS1(m) => false,
            Mapper::Vrc1(m) => false,
            Mapper::Mapper18(m) => false,
            Mapper::Mapper40(m) => false,
            Mapper::Mapper42(m) => false,
            Mapper::Mapper50(m) => false,
            Mapper::Mapper65(m) => false,
            Mapper::Mapper67(m) => false,
            Mapper::Mapper73(m) => false,
            Mapper::Mapper117(m) => false,
            Mapper::Mapper175(m) => false,
            Mapper::Mapper234(m) => false,
            Mapper::Mapper60(m) => false,
            Mapper::Mapper83(m) => false,
            Mapper::Mapper183(m) => false,
            Mapper::Mapper212(m) => false,
            _ => self.has_chr_read_spec_7(),
        }
    }

    pub open spec fn has_chr_read_spec_7(&self) -> bool {
        match self {
            Mapper::Mapper222(m) => false,
            Mapper::Mapper235(m) => false,
            Mapper::Mapper272(m) => false,
            Mapper::Mapper330(m) => false,
            Mapper::Mapper91(m) => false,
            Mapper::JyAsic(m) => false,
            _ => false,
        }
    }

    /// Can `chr_read` ever answer?
    pub fn has_chr_read(&self) -> (r: bool)
        requires self.wf(),
        ensures r == self.has_chr_read_spec(),
    {
        match self {
            Mapper::Nrom(m) => false,
            Mapper::Unrom(m) => false,
            Mapper::Cnrom(m) => false,
            Mapper::Axrom(m) => false,
            Mapper::ColorDreams(m) => false,
            Mapper::Gxrom(m) => false,
            Mapper::Codemasters(m) => false,
            Mapper::Bf9096(m) => false,
            Mapper::Cprom(m) => false,
            Mapper::Bandai74161(m) => false,
            Mapper::Mapper36(m) => false,
            Mapper::Mapper81(m) => false,
            Mapper::Mapper8(m) => false,
            Mapper::Mapper99(m) => false,
            Mapper::Mapper29(m) => false,
            Mapper::UnlPci556(m) => false,
            _ => self.has_chr_read_1(),
        }
    }

    fn has_chr_read_1(&self) -> (r: bool)
        requires self.wf(),
        ensures r == self.has_chr_read_spec_1(),
    {
        match self {
            Mapper::Mapper72(m) => false,
            Mapper::Mapper122(m) => false,
            Mapper::Mapper79(m) => false,
            Mapper::Mapper107(m) => false,
            Mapper::Mapper92(m) => false,
            Mapper::JalecoJf11_14(m) => false,
            Mapper::Mapper203(m) => false,
            Mapper::Mapper185(m) => m.has_chr_read(),
            Mapper::Mapper188(m) => false,
            Mapper::Mapper193(m) => false,
            Mapper::Mapper186(m) => false,
            Mapper::Mapper218(m) => m.has_chr_read(),
            Mapper::Bnrom(m) => false,
            Mapper::Nina01(m) => false,
            Mapper::Sachen133(m) => false,
            Mapper::SachenSa0161m(m) => false,
            _ => self.has_chr_read_2(),
        }
    }

    fn has_chr_read_2(&self) -> (r: bool)
        requires self.wf(),
        ensures r == self.has_chr_read_spec_2(),
    {
        match self {
            Mapper::Sachen149(m) => false,
            Mapper::Sachen8259(m) => false,
            Mapper::Sachen74Ls374N(m) => false,
            Mapper::Sunsoft4(m) => false,
            Mapper::Sunsoft184(m) => false,
            Mapper::Sunsoft89(m) => false,
            Mapper::Mapper271(m) => false,
            Mapper::Mapper285(m) => false,
            Mapper::Mapper310(m) => false,
            Mapper::Mapper319(m) => false,
            Mapper::Mapper326(m) => false,
            Mapper::Mapper156(m) => false,
            Mapper::Subor166(m) => false,
            Mapper::NanjingMapper(m) => false,
            Mapper::Ntdec112(m) => false,
            Mapper::Tf1201(m) => false,
            _ => self.has_chr_read_3(),
        }
    }

    fn has_chr_read_3(&self) -> (r: bool)
        requires self.wf(),
        ensures r == self.has_chr_read_spec_3(),
    {
        match self {
            Mapper::TxcMapper(m) => false,
            Mapper::Namco118(m) => false,
            Mapper::Namco108Mapper95(m) => false,
            Mapper::Namco108Mapper206(m) => false,
            Mapper::Namco108Mapper154(m) => false,
            Mapper::Mapper103(m) => false,
            Mapper::Mapper120(m) => false,
            Mapper::Mapper104(m) => false,
            Mapper::Mapper108(m) => false,
            Mapper::Mapper190(m) => false,
            Mapper::Mapper168(m) => m.has_chr_read(),
            Mapper::Mapper170(m) => false,
            Mapper::Mapper177(m) => false,
            Mapper::Mapper230(m) => false,
            Mapper::Mapper233(m) => false,
            Mapper::Mapper116(m) => false,
            _ => self.has_chr_read_4(),
        }
    }

    fn has_chr_read_4(&self) -> (r: bool)
        requires self.wf(),
        ensures r == self.has_chr_read_spec_4(),
    {
        match self {
            Mapper::TaitoTc0190(m) => false,
            Mapper::TaitoX1005(m) => false,
            Mapper::TaitoX1017(m) => false,
            Mapper::ActionEnterprises(m) => false,
            Mapper::AddrLatch16k(m) => false,
            Mapper::BandaiFcg(m) => false,
            Mapper::Mapper15(m) => false,
            Mapper::Action53(m) => false,
            Mapper::Mapper53(m) => false,
            Mapper::Mapper51(m) => false,
            Mapper::Mapper57(m) => false,
            Mapper::Mapper63(m) => false,
            Mapper::Mapper128(m) => false,
            Mapper::Mapper226(m) => false,
            Mapper::Mapper240(m) => false,
            Mapper::Mapper241(m) => false,
            _ => self.has_chr_read_5(),
        }
    }

    fn has_chr_read_5(&self) -> (r: bool)
        requires self.wf(),
        ensures r == self.has_chr_read_spec_5(),
    {
        match self {
            Mapper::Mapper244(m) => false,
            Mapper::Mapper246(m) => false,
            Mapper::Mapper236(m) => false,
            Mapper::Mapper237(m) => false,
            Mapper::Mapper31(m) => false,
            Mapper::Mapper96(m) => false,
            Mapper::Nina03_06(m) => false,
            Mapper::Caltron41(m) => false,
            Mapper::ColorDreams46(m) => false,
            Mapper::Mapper151(m) => false,
            Mapper::JalecoJf16(m) => false,
            Mapper::JalecoJfxx(m) => false,
            Mapper::JalecoJf13(m) => false,
            Mapper::UnromVariantMapper(m) => false,
            Mapper::IremG101(m) => false,
            Mapper::IremLrog017(m) => m.has_chr_read(),
            _ => self.has_chr_read_6(),
        }
    }

    fn has_chr_read_6(&self) -> (r: bool)
        requires self.wf(),
        ensures r == self.has_chr_read_spec_6(),
    {
        match self {
            Mapper::IremTamS1(m) => false,
            Mapper::Vrc1(m) => false,
            Mapper::Mapper18(m) => false,
            Mapper::Mapper40(m) => false,
            Mapper::Mapper42(m) => false,
            Mapper::Mapper50(m) => false,
            Mapper::Mapper65(m) => false,
            Mapper::Mapper67(m) => false,
            Mapper::Mapper73(m) => false,
            Mapper::Mapper117(m) => false,
            Mapper::Mapper175(m) => false,
            Mapper::Mapper234(m) => false,
            Mapper::Mapper60(m) => false,
            Mapper::Mapper83(m) => false,
            Mapper::Mapper183(m) => false,
            Mapper::Mapper212(m) => false,
            _ => self.has_chr_read_7(),
        }
    }

    fn has_chr_read_7(&self) -> (r: bool)
        requires self.wf(),
        ensures r == self.has_chr_read_spec_7(),
    {
        match self {
            Mapper::Mapper222(m) => false,
            Mapper::Mapper235(m) => false,
            Mapper::Mapper272(m) => false,
            Mapper::Mapper330(m) => false,
            Mapper::Mapper91(m) => false,
            Mapper::JyAsic(m) => false,
            _ => false,
        }
    }

    pub open spec fn watches_ppu_bus_spec(&self) -> bool {
        match self {
            Mapper::Nrom(m) => false,
            Mapper::Unrom(m) => false,
            Mapper::Cnrom(m) => false,
            Mapper::Axrom(m) => false,
            Mapper::ColorDreams(m) => false,
            Mapper::Gxrom(m) => false,
            Mapper::Codemasters(m) => false,
            Mapper::Bf9096(m) => false,
            Mapper::Cprom(m) => false,
            Mapper::Bandai74161(m) => false,
            Mapper::Mapper36(m) => false,
            Mapper::Mapper81(m) => false,
            Mapper::Mapper8(m) => false,
            Mapper::Mapper99(m) => false,
            Mapper::Mapper29(m) => false,
            Mapper::UnlPci556(m) => false,
            _ => self.watches_ppu_bus_spec_1(),
        }
    }

    pub open spec fn watches_ppu_bus_spec_1(&self) -> bool {
        match self {
            Mapper::Mapper72(m) => false,
            Mapper::Mapper122(m) => false,
            Mapper::Mapper79(m) => false,
            Mapper::Mapper107(m) => false,
            Mapper::Mapper92(m) => false,
            Mapper::JalecoJf11_14(m) => false,
            Mapper::Mapper203(m) => false,
            Mapper::Mapper185(m) => false,
            Mapper::Mapper188(m) => false,
            Mapper::Mapper193(m) => false,
            Mapper::Mapper186(m) => false,
            Mapper::Mapper218(m) => false,
            Mapper::Bnrom(m) => false,
            Mapper::Nina01(m) => false,
            Mapper::Sachen133(m) => false,
            Mapper::SachenSa0161m(m) => false,
            _ => self.watches_ppu_bus_spec_2(),
        }
    }

    pub open spec fn watches_ppu_bus_spec_2(&self) -> bool {
        match self {
            Mapper::Sachen149(m) => false,
            Mapper::Sachen8259(m) => false,
            Mapper::Sachen74Ls374N(m) => false,
            Mapper::Sunsoft4(m) => false,
            Mapper::Sunsoft184(m) => false,
            Mapper::Sunsoft89(m) => false,
            Mapper::Mapper271(m) => false,
            Mapper::Mapper285(m) => false,
            Mapper::Mapper310(m) => false,
            Mapper::Mapper319(m) => false,
            Mapper::Mapper326(m) => false,
            Mapper::Mapper156(m) => false,
            Mapper::Subor166(m) => false,
            Mapper::NanjingMapper(m) => false,
            Mapper::Ntdec112(m) => false,
            Mapper::Tf1201(m) => false,
            _ => self.watches_ppu_bus_spec_3(),
        }
    }

    pub open spec fn watches_ppu_bus_spec_3(&self) -> bool {
        match self {
            Mapper::TxcMapper(m) => false,
            Mapper::Namco118(m) => false,
            Mapper::Namco108Mapper95(m) => false,
            Mapper::Namco108Mapper206(m) => false,
            Mapper::Namco108Mapper154(m) => false,
            Mapper::Mapper103(m) => false,
            Mapper::Mapper120(m) => false,
            Mapper::Mapper104(m) => false,
            Mapper::Mapper108(m) => false,
            Mapper::Mapper190(m) => false,
            Mapper::Mapper168(m) => false,
            Mapper::Mapper170(m) => false,
            Mapper::Mapper177(m) => false,
            Mapper::Mapper230(m) => false,
            Mapper::Mapper233(m) => false,
            Mapper::Mapper116(m) => m.watches_ppu_bus(),
            _ => self.watches_ppu_bus_spec_4(),
        }
    }

    pub open spec fn watches_ppu_bus_spec_4(&self) -> bool {
        match self {
            Mapper::TaitoTc0190(m) => false,
            Mapper::TaitoX1005(m) => false,
            Mapper::TaitoX1017(m) => false,
            Mapper::ActionEnterprises(m) => false,
            Mapper::AddrLatch16k(m) => false,
            Mapper::BandaiFcg(m) => false,
            Mapper::Mapper15(m) => false,
            Mapper::Action53(m) => false,
            Mapper::Mapper53(m) => false,
            Mapper::Mapper51(m) => false,
            Mapper::Mapper57(m) => false,
            Mapper::Mapper63(m) => false,
            Mapper::Mapper128(m) => false,
            Mapper::Mapper226(m) => false,
            Mapper::Mapper240(m) => false,
            Mapper::Mapper241(m) => false,
            _ => self.watches_ppu_bus_spec_5(),
        }
    }

    pub open spec fn watches_ppu_bus_spec_5(&self) -> bool {
        match self {
            Mapper::Mapper244(m) => false,
            Mapper::Mapper246(m) => false,
            Mapper::Mapper236(m) => false,
            Mapper::Mapper237(m) => false,
            Mapper::Mapper31(m) => false,
            Mapper::Mapper96(m) => m.watches_ppu_bus(),
            Mapper::Nina03_06(m) => false,
            Mapper::Caltron41(m) => false,
            Mapper::ColorDreams46(m) => false,
            Mapper::Mapper151(m) => false,
            Mapper::JalecoJf16(m) => false,
            Mapper::JalecoJfxx(m) => false,
            Mapper::JalecoJf13(m) => false,
            Mapper::UnromVariantMapper(m) => false,
            Mapper::IremG101(m) => false,
            Mapper::IremLrog017(m) => false,
            _ => self.watches_ppu_bus_spec_6(),
        }
    }

    pub open spec fn watches_ppu_bus_spec_6(&self) -> bool {
        match self {
            Mapper::IremTamS1(m) => false,
            Mapper::Vrc1(m) => false,
            Mapper::Mapper18(m) => false,
            Mapper::Mapper40(m) => false,
            Mapper::Mapper42(m) => false,
            Mapper::Mapper50(m) => false,
            Mapper::Mapper65(m) => false,
            Mapper::Mapper67(m) => false,
            Mapper::Mapper73(m) => false,
            Mapper::Mapper117(m) => m.watches_ppu_bus(),
            Mapper::Mapper175(m) => false,
            Mapper::Mapper234(m) => false,
            Mapper::Mapper60(m) => false,
            Mapper::Mapper83(m) => false,
            Mapper::Mapper183(m) => false,
            Mapper::Mapper212(m) => false,
            _ => self.watches_ppu_bus_spec_7(),
        }
    }

    pub open spec fn watches_ppu_bus_spec_7(&self) -> bool {
        match self {
            Mapper::Mapper222(m) => m.watches_ppu_bus(),
            Mapper::Mapper235(m) => false,
            Mapper::Mapper272(m) => m.watches_ppu_bus(),
            Mapper::Mapper330(m) => false,
            Mapper::Mapper91(m) => false,
            Mapper::JyAsic(m) => m.watches_ppu_bus(),
            _ => false,
        }
    }

    /// Does the board observe PPU address-bus activity?
    pub fn watches_ppu_bus(&self) -> (r: bool)
        requires self.wf(),
        ensures r == self.watches_ppu_bus_spec(),
    {
        match self {
            Mapper::Nrom(m) => false,
            Mapper::Unrom(m) => false,
            Mapper::Cnrom(m) => false,
            Mapper::Axrom(m) => false,
            Mapper::ColorDreams(m) => false,
            Mapper::Gxrom(m) => false,
            Mapper::Codemasters(m) => false,
            Mapper::Bf9096(m) => false,
            Mapper::Cprom(m) => false,
            Mapper::Bandai74161(m) => false,
            Mapper::Mapper36(m) => false,
            Mapper::Mapper81(m) => false,
            Mapper::Mapper8(m) => false,
            Mapper::Mapper99(m) => false,
            Mapper::Mapper29(m) => false,
            Mapper::UnlPci556(m) => false,
            _ => self.watches_ppu_bus_1(),
        }
    }

    fn watches_ppu_bus_1(&self) -> (r: bool)
        requires self.wf(),
        ensures r == self.watches_ppu_bus_spec_1(),
    {
        match self {
            Mapper::Mapper72(m) => false,
            Mapper::Mapper122(m) => false,
            Mapper::Mapper79(m) => false,
            Mapper::Mapper107(m) => false,
            Mapper::Mapper92(m) => false,
            Mapper::JalecoJf11_14(m) => false,
            Mapper::Mapper203(m) => false,
            Mapper::Mapper185(m) => false,
            Mapper::Mapper188(m) => false,
            Mapper::Mapper193(m) => false,
            Mapper::Mapper186(m) => false,
            Mapper::Mapper218(m) => false,
            Mapper::Bnrom(m) => false,
            Mapper::Nina01(m) => false,
            Mapper::Sachen133(m) => false,
            Mapper::SachenSa0161m(m) => false,
            _ => self.watches_ppu_bus_2(),
        }
    }

    fn watches_ppu_bus_2(&self) -> (r: bool)
        requires self.wf(),
        ensures r == self.watches_ppu_bus_spec_2(),
    {
        match self {
            Mapper::Sachen149(m) => false,
            Mapper::Sachen8259(m) => false,
            Mapper::Sachen74Ls374N(m) => false,
            Mapper::Sunsoft4(m) => false,
            Mapper::Sunsoft184(m) => false,
            Mapper::Sunsoft89(m) => false,
            Mapper::Mapper271(m) => false,
            Mapper::Mapper285(m) => false,
            Mapper::Mapper310(m) => false,
            Mapper::Mapper319(m) => false,
            Mapper::Mapper326(m) => false,
            Mapper::Mapper156(m) => false,
            Mapper::Subor166(m) => false,
            Mapper::NanjingMapper(m) => false,
            Mapper::Ntdec112(m) => false,
            Mapper::Tf1201(m) => false,
            _ => self.watches_ppu_bus_3(),
        }
    }

    fn watches_ppu_bus_3(&self) -> (r: bool)
        requires self.wf(),
        ensures r == self.watches_ppu_bus_spec_3(),
    {
        match self {
            Mapper::TxcMapper(m) => false,
            Mapper::Namco118(m) => false,
            Mapper::Namco108Mapper95(m) => false,
            Mapper::Namco108Mapper206(m) => false,
            Mapper::Namco108Mapper154(m) => false,
            Mapper::Mapper103(m) => false,
            Mapper::Mapper120(m) => false,
            Mapper::Mapper104(m) => false,
            Mapper::Mapper108(m) => false,
            Mapper::Mapper190(m) => false,
            Mapper::Mapper168(m) => false,
            Mapper::Mapper170(m) => false,
            Mapper::Mapper177(m) => false,
            Mapper::Mapper230(m) => false,
            Mapper::Mapper233(m) => false,
            Mapper::Mapper116(m) => m.watches_ppu_bus(),
            _ => self.watches_ppu_bus_4(),
        }
    }

    fn watches_ppu_bus_4(&self) -> (r: bool)
        requires self.wf(),
        ensures r == self.watches_ppu_bus_spec_4(),
    {
        match self {
            Mapper::TaitoTc0190(m) => false,
            Mapper::TaitoX1005(m) => false,
            Mapper::TaitoX1017(m) => false,
            Mapper::ActionEnterprises(m) => false,
            Mapper::AddrLatch16k(m) => false,
            Mapper::BandaiFcg(m) => false,
            Mapper::Mapper15(m) => false,
            Mapper::Action53(m) => false,
            Mapper::Mapper53(m) => false,
            Mapper::Mapper51(m) => false,
            Mapper::Mapper57(m) => false,
            Mapper::Mapper63(m) => false,
            Mapper::Mapper128(m) => false,
            Mapper::Mapper226(m) => false,
            Mapper::Mapper240(m) => false,
            Mapper::Mapper241(m) => false,
            _ => self.watches_ppu_bus_5(),
        }
    }

    fn watches_ppu_bus_5(&self) -> (r: bool)
        requires self.wf(),
        ensures r == self.watches_ppu_bus_spec_5(),
    {
        match self {
            Mapper::Mapper244(m) => false,
            Mapper::Mapper246(m) => false,
            Mapper::Mapper236(m) => false,
            Mapper::Mapper237(m) => false,
            Mapper::Mapper31(m) => false,
            Mapper::Mapper96(m) => m.watches_ppu_bus(),
            Mapper::Nina03_06(m) => false,
            Mapper::Caltron41(m) => false,
            Mapper::ColorDreams46(m) => false,
            Mapper::Mapper151(m) => false,
            Mapper::JalecoJf16(m) => false,
            Mapper::JalecoJfxx(m) => false,
            Mapper::JalecoJf13(m) => false,
            Mapper::UnromVariantMapper(m) => false,
            Mapper::IremG101(m) => false,
            Mapper::IremLrog017(m) => false,
            _ => self.watches_ppu_bus_6(),
        }
    }

    fn watches_ppu_bus_6(&self) -> (r: bool)
        requires self.wf(),
        ensures r == self.watches_ppu_bus_spec_6(),
    {
        match self {
            Mapper::IremTamS1(m) => false,
            Mapper::Vrc1(m) => false,
            Mapper::Mapper18(m) => false,
            Mapper::Mapper40(m) => false,
            Mapper::Mapper42(m) => false,
            Mapper::Mapper50(m) => false,
            Mapper::Mapper65(m) => false,
            Mapper::Mapper67(m) => false,
            Mapper::Mapper73(m) => false,
            Mapper::Mapper117(m) => m.watches_ppu_bus(),
            Mapper::Mapper175(m) => false,
            Mapper::Mapper234(m) => false,
            Mapper::Mapper60(m) => false,
            Mapper::Mapper83(m) => false,
            Mapper::Mapper183(m) => false,
            Mapper::Mapper212(m) => false,
            _ => self.watches_ppu_bus_7(),
        }
    }

    fn watches_ppu_bus_7(&self) -> (r: bool)
        requires self.wf(),
        ensures r == self.watches_ppu_bus_spec_7(),
    {
        match self {
            Mapper::Mapper222(m) => m.watches_ppu_bus(),
            Mapper::Mapper235(m) => false,
            Mapper::Mapper272(m) => m.watches_ppu_bus(),
            Mapper::Mapper330(m) => false,
            Mapper::Mapper91(m) => false,
            Mapper::JyAsic(m) => m.watches_ppu_bus(),
            _ => false,
        }
    }

    pub open spec fn clocks_cpu_spec(&self) -> bool {
        match self {
            Mapper::Nrom(m) => false,
            Mapper::Unrom(m) => false,
            Mapper::Cnrom(m) => false,
            Mapper::Axrom(m) => false,
            Mapper::ColorDreams(m) => false,
            Mapper::Gxrom(m) => false,
            Mapper::Codemasters(m) => false,
            Mapper::Bf9096(m) => false,
            Mapper::Cprom(m) => false,
            Mapper::Bandai74161(m) => false,
            Mapper::Mapper36(m) => false,
            Mapper::Mapper81(m) => false,
            Mapper::Mapper8(m) => false,
            Mapper::Mapper99(m) => false,
            Mapper::Mapper29(m) => false,
            Mapper::UnlPci556(m) => false,
            _ => self.clocks_cpu_spec_1(),
        }
    }

    pub open spec fn clocks_cpu_spec_1(&self) -> bool {
        match self {
            Mapper::Mapper72(m) => false,
            Mapper::Mapper122(m) => false,
            Mapper::Mapper79(m) => false,
            Mapper::Mapper107(m) => false,
            Mapper::Mapper92(m) => false,
            Mapper::JalecoJf11_14(m) => false,
            Mapper::Mapper203(m) => false,
            Mapper::Mapper185(m) => false,
            Mapper::Mapper188(m) => false,
            Mapper::Mapper193(m) => false,
            Mapper::Mapper186(m) => false,
            Mapper::Mapper218(m) => false,
            Mapper::Bnrom(m) => false,
            Mapper::Nina01(m) => false,
            Mapper::Sachen133(m) => false,
            Mapper::SachenSa0161m(m) => false,
            _ => self.clocks_cpu_spec_2(),
        }
    }

    pub open spec fn clocks_cpu_spec_2(&self) -> bool {
        match self {
            Mapper::Sachen149(m) => false,
            Mapper::Sachen8259(m) => false,
            Mapper::Sachen74Ls374N(m) => false,
            Mapper::Sunsoft4(m) => false,
            Mapper::Sunsoft184(m) => false,
            Mapper::Sunsoft89(m) => false,
            Mapper::Mapper271(m) => false,
            Mapper::Mapper285(m) => false,
            Mapper::Mapper310(m) => false,
            Mapper::Mapper319(m) => false,
            Mapper::Mapper326(m) => false,
            Mapper::Mapper156(m) => false,
            Mapper::Subor166(m) => false,
            Mapper::NanjingMapper(m) => false,
            Mapper::Ntdec112(m) => false,
            Mapper::Tf1201(m) => m.clocks_cpu(),
            _ => self.clocks_cpu_spec_3(),
        }
    }

    pub open spec fn clocks_cpu_spec_3(&self) -> bool {
        match self {
            Mapper::TxcMapper(m) => false,
            Mapper::Namco118(m) => false,
            Mapper::Namco108Mapper95(m) => false,
            Mapper::Namco108Mapper206(m) => false,
            Mapper::Namco108Mapper154(m) => false,
            Mapper::Mapper103(m) => false,
            Mapper::Mapper120(m) => false,
            Mapper::Mapper104(m) => false,
            Mapper::Mapper108(m) => false,
            Mapper::Mapper190(m) => false,
            Mapper::Mapper168(m) => m.clocks_cpu(),
            Mapper::Mapper170(m) => false,
            Mapper::Mapper177(m) => false,
            Mapper::Mapper230(m) => false,
            Mapper::Mapper233(m) => false,
            Mapper::Mapper116(m) => false,
            _ => self.clocks_cpu_spec_4(),
        }
    }

    pub open spec fn clocks_cpu_spec_4(&self) -> bool {
        match self {
            Mapper::TaitoTc0190(m) => false,
            Mapper::TaitoX1005(m) => false,
            Mapper::TaitoX1017(m) => false,
            Mapper::ActionEnterprises(m) => false,
            Mapper::AddrLatch16k(m) => false,
            Mapper::BandaiFcg(m) => m.clocks_cpu(),
            Mapper::Mapper15(m) => false,
            Mapper::Action53(m) => false,
            Mapper::Mapper53(m) => false,
            Mapper::Mapper51(m) => false,
            Mapper::Mapper57(m) => false,
            Mapper::Mapper63(m) => false,
            Mapper::Mapper128(m) => false,
            Mapper::Mapper226(m) => false,
            Mapper::Mapper240(m) => false,
            Mapper::Mapper241(m) => false,
            _ => self.clocks_cpu_spec_5(),
        }
    }

    pub open spec fn clocks_cpu_spec_5(&self) -> bool {
        match self {
            Mapper::Mapper244(m) => false,
            Mapper::Mapper246(m) => false,
            Mapper::Mapper236(m) => false,
            Mapper::Mapper237(m) => false,
            Mapper::Mapper31(m) => false,
            Mapper::Mapper96(m) => false,
            Mapper::Nina03_06(m) => false,
            Mapper::Caltron41(m) => false,
            Mapper::ColorDreams46(m) => false,
            Mapper::Mapper151(m) => false,
            Mapper::JalecoJf16(m) => false,
            Mapper::JalecoJfxx(m) => false,
            Mapper::JalecoJf13(m) => false,
            Mapper::UnromVariantMapper(m) => false,
            Mapper::IremG101(m) => false,
            Mapper::IremLrog017(m) => false,
            _ => self.clocks_cpu_spec_6(),
        }
    }

    pub open spec fn clocks_cpu_spec_6(&self) -> bool {
        match self {
            Mapper::IremTamS1(m) => false,
            Mapper::Vrc1(m) => false,
            Mapper::Mapper18(m) => m.clocks_cpu(),
            Mapper::Mapper40(m) => m.clocks_cpu(),
            Mapper::Mapper42(m) => m.clocks_cpu(),
            Mapper::Mapper50(m) => m.clocks_cpu(),
            Mapper::Mapper65(m) => m.clocks_cpu(),
            Mapper::Mapper67(m) => m.clocks_cpu(),
            Mapper::Mapper73(m) => m.clocks_cpu(),
            Mapper::Mapper117(m) => false,
            Mapper::Mapper175(m) => false,
            Mapper::Mapper234(m) => false,
            Mapper::Mapper60(m) => false,
            Mapper::Mapper83(m) => m.clocks_cpu(),
            Mapper::Mapper183(m) => m.clocks_cpu(),
            Mapper::Mapper212(m) => false,
            _ => self.clocks_cpu_spec_7(),
        }
    }

    pub open spec fn clocks_cpu_spec_7(&self) -> bool {
        match self {
            Mapper::Mapper222(m) => false,
            Mapper::Mapper235(m) => false,
            Mapper::Mapper272(m) => false,
            Mapper::Mapper330(m) => m.clocks_cpu(),
            Mapper::Mapper91(m) => false,
            Mapper::JyAsic(m) => m.clocks_cpu(),
            _ => false,
        }
    }

    /// Does the board count CPU cycles?
    pub fn clocks_cpu(&self) -> (r: bool)
        requires self.wf(),
        ensures r == self.clocks_cpu_spec(),
    {
        match self {
            Mapper::Nrom(m) => false,
            Mapper::Unrom(m) => false,
            Mapper::Cnrom(m) => false,
            Mapper::Axrom(m) => false,
            Mapper::ColorDreams(m) => false,
            Mapper::Gxrom(m) => false,
            Mapper::Codemasters(m) => false,
            Mapper::Bf9096(m) => false,
            Mapper::Cprom(m) => false,
            Mapper::Bandai74161(m) => false,
            Mapper::Mapper36(m) => false,
            Mapper::Mapper81(m) => false,
            Mapper::Mapper8(m) => false,
            Mapper::Mapper99(m) => false,
            Mapper::Mapper29(m) => false,
            Mapper::UnlPci556(m) => false,
            _ => self.clocks_cpu_1(),
        }
    }

    fn clocks_cpu_1(&self) -> (r: bool)
        requires self.wf(),
        ensures r == self.clocks_cpu_spec_1(),
    {
        match self {
            Mapper::Mapper72(m) => false,
            Mapper::Mapper122(m) => false,
            Mapper::Mapper79(m) => false,
            Mapper::Mapper107(m) => false,
            Mapper::Mapper92(m) => false,
            Mapper::JalecoJf11_14(m) => false,
            Mapper::Mapper203(m) => false,
            Mapper::Mapper185(m) => false,
            Mapper::Mapper188(m) => false,
            Mapper::Mapper193(m) => false,
            Mapper::Mapper186(m) => false,
            Mapper::Mapper218(m) => false,
            Mapper::Bnrom(m) => false,
            Mapper::Nina01(m) => false,
            Mapper::Sachen133(m) => false,
            Mapper::SachenSa0161m(m) => false,
            _ => self.clocks_cpu_2(),
        }
    }

    fn clocks_cpu_2(&self) -> (r: bool)
        requires self.wf(),
        ensures r == self.clocks_cpu_spec_2(),
    {
        match self {
            Mapper::Sachen149(m) => false,
            Mapper::Sachen8259(m) => false,
            Mapper::Sachen74Ls374N(m) => false,
            Mapper::Sunsoft4(m) => false,
            Mapper::Sunsoft184(m) => false,
            Mapper::Sunsoft89(m) => false,
            Mapper::Mapper271(m) => false,
            Mapper::Mapper285(m) => false,
            Mapper::Mapper310(m) => false,
            Mapper::Mapper319(m) => false,
            Mapper::Mapper326(m) => false,
            Mapper::Mapper156(m) => false,
            Mapper::Subor166(m) => false,
            Mapper::NanjingMapper(m) => false,
            Mapper::Ntdec112(m) => false,
            Mapper::Tf1201(m) => m.clocks_cpu(),
            _ => self.clocks_cpu_3(),
        }
    }

    fn clocks_cpu_3(&self) -> (r: bool)
        requires self.wf(),
        ensures r == self.clocks_cpu_spec_3(),
    {
        match self {
            Mapper::TxcMapper(m) => false,
            Mapper::Namco118(m) => false,
            Mapper::Namco108Mapper95(m) => false,
            Mapper::Namco108Mapper206(m) => false,
            Mapper::Namco108Mapper154(m) => false,
            Mapper::Mapper103(m) => false,
            Mapper::Mapper120(m) => false,
            Mapper::Mapper104(m) => false,
            Mapper::Mapper108(m) => false,
            Mapper::Mapper190(m) => false,
            Mapper::Mapper168(m) => m.clocks_cpu(),
            Mapper::Mapper170(m) => false,
            Mapper::Mapper177(m) => false,
            Mapper::Mapper230(m) => false,
            Mapper::Mapper233(m) => false,
            Mapper::Mapper116(m) => false,
            _ => self.clocks_cpu_4(),
        }
    }

    fn clocks_cpu_4(&self) -> (r: bool)
        requires self.wf(),
        ensures r == self.clocks_cpu_spec_4(),
    {
        match self {
            Mapper::TaitoTc0190(m) => false,
            Mapper::TaitoX1005(m) => false,
            Mapper::TaitoX1017(m) => false,
            Mapper::ActionEnterprises(m) => false,
            Mapper::AddrLatch16k(m) => false,
            Mapper::BandaiFcg(m) => m.clocks_cpu(),
            Mapper::Mapper15(m) => false,
            Mapper::Action53(m) => false,
            Mapper::Mapper53(m) => false,
            Mapper::Mapper51(m) => false,
            Mapper::Mapper57(m) => false,
            Mapper::Mapper63(m) => false,
            Mapper::Mapper128(m) => false,
            Mapper::Mapper226(m) => false,
            Mapper::Mapper240(m) => false,
            Mapper::Mapper241(m) => false,
            _ => self.clocks_cpu_5(),
        }
    }

    fn clocks_cpu_5(&self) -> (r: bool)
        requires self.wf(),
        ensures r == self.clocks_cpu_spec_5(),
    {
        match self {
            Mapper::Mapper244(m) => false,
            Mapper::Mapper246(m) => false,
            Mapper::Mapper236(m) => false,
            Mapper::Mapper237(m) => false,
            Mapper::Mapper31(m) => false,
            Mapper::Mapper96(m) => false,
            Mapper::Nina03_06(m) => false,
            Mapper::Caltron41(m) => false,
            Mapper::ColorDreams46(m) => false,
            Mapper::Mapper151(m) => false,
            Mapper::JalecoJf16(m) => false,
            Mapper::JalecoJfxx(m) => false,
            Mapper::JalecoJf13(m) => false,
            Mapper::UnromVariantMapper(m) => false,
            Mapper::IremG101(m) => false,
            Mapper::IremLrog017(m) => false,
            _ => self.clocks_cpu_6(),
        }
    }

    fn clocks_cpu_6(&self) -> (r: bool)
        requires self.wf(),
        ensures r == self.clocks_cpu_spec_6(),
    {
        match self {
            Mapper::IremTamS1(m) => false,
            Mapper::Vrc1(m) => false,
            Mapper::Mapper18(m) => m.clocks_cpu(),
            Mapper::Mapper40(m) => m.clocks_cpu(),
            Mapper::Mapper42(m) => m.clocks_cpu(),
            Mapper::Mapper50(m) => m.clocks_cpu(),
            Mapper::Mapper65(m) => m.clocks_cpu(),
            Mapper::Mapper67(m) => m.clocks_cpu(),
            Mapper::Mapper73(m) => m.clocks_cpu(),
            Mapper::Mapper117(m) => false,
            Mapper::Mapper175(m) => false,
            Mapper::Mapper234(m) => false,
            Mapper::Mapper60(m) => false,
            Mapper::Mapper83(m) => m.clocks_cpu(),
            Mapper::Mapper183(m) => m.clocks_cpu(),
            Mapper::Mapper212(m) => false,
            _ => self.clocks_cpu_7(),
        }
    }

    fn clocks_cpu_7(&self) -> (r: bool)
        requires self.wf(),
        ensures r == self.clocks_cpu_spec_7(),
    {
        match self {
            Mapper::Mapper222(m) => false,
            Mapper::Mapper235(m) => false,
            Mapper::Mapper272(m) => false,
            Mapper::Mapper330(m) => m.clocks_cpu(),
            Mapper::Mapper91(m) => false,
            Mapper::JyAsic(m) => m.clocks_cpu(),
            _ => false,
        }
    }

    pub open spec fn peek_nametable_spec(&self, addr: u16, ciram: &[u8; 0x1000]) -> Option<u8> {
        match self {
            Mapper::Nrom(m) => None,
            Mapper::Unrom(m) => None,
            Mapper::Cnrom(m) => None,
            Mapper::Axrom(m) => None,
            Mapper::ColorDreams(m) => None,
            Mapper::Gxrom(m) => None,
            Mapper::Codemasters(m) => None,
            Mapper::Bf9096(m) => None,
            Mapper::Cprom(m) => None,
            Mapper::Bandai74161(m) => None,
            Mapper::Mapper36(m) => None,
            Mapper::Mapper81(m) => None,
            Mapper::Mapper8(m) => None,
            Mapper::Mapper99(m) => None,
            Mapper::Mapper29(m) => None,
            Mapper::UnlPci556(m) => None,
            _ => self.peek_nametable_spec_1(addr, ciram),
        }
    }

    pub open spec fn peek_nametable_spec_1(&self, addr: u16, ciram: &[u8; 0x1000]) -> Option<u8> {
        match self {
            Mapper::Mapper72(m) => None,
            Mapper::Mapper122(m) => None,
            Mapper::Mapper79(m) => None,
            Mapper::Mapper107(m) => None,
            Mapper::Mapper92(m) => None,
            Mapper::JalecoJf11_14(m) => None,
            Mapper::Mapper203(m) => None,
            Mapper::Mapper185(m) => None,
            Mapper::Mapper188(m) => None,
            Mapper::Mapper193(m) => None,
            Mapper::Mapper186(m) => None,
            Mapper::Mapper218(m) => None,
            Mapper::Bnrom(m) => None,
            Mapper::Nina01(m) => None,
            Mapper::Sachen133(m) => None,
            Mapper::SachenSa0161m(m) => None,
            _ => self.peek_nametable_spec_2(addr, ciram),
        }
    }

    pub open spec fn peek_nametable_spec_2(&self, addr: u16, ciram: &[u8; 0x1000]) -> Option<u8> {
        match self {
            Mapper::Sachen149(m) => None,
            Mapper::Sachen8259(m) => None,
            Mapper::Sachen74Ls374N(m) => None,
            Mapper::Sunsoft4(m) => None,
            Mapper::Sunsoft184(m) => None,
            Mapper::Sunsoft89(m) => None,
            Mapper::Mapper271(m) => None,
            Mapper::Mapper285(m) => None,
            Mapper::Mapper310(m) => None,
            Mapper::Mapper319(m) => None,
            Mapper::Mapper326(m) => m.peek_nametable(addr, ciram),
            Mapper::Mapper156(m) => None,
            Mapper::Subor166(m) => None,
            Mapper::NanjingMapper(m) => None,
            Mapper::Ntdec112(m) => None,
            Mapper::Tf1201(m) => None,
            _ => self.peek_nametable_spec_3(addr, ciram),
        }
    }

    pub open spec fn peek_nametable_spec_3(&self, addr: u16, ciram: &[u8; 0x1000]) -> Option<u8> {
        match self {
            Mapper::TxcMapper(m) => None,
            Mapper::Namco118(m) => None,
            Mapper::Namco108Mapper95(m) => m.peek_nametable(addr, ciram),
            Mapper::Namco108Mapper206(m) => None,
            Mapper::Namco108Mapper154(m) => None,
            Mapper::Mapper103(m) => None,
            Mapper::Mapper120(m) => None,
            Mapper::Mapper104(m) => None,
            Mapper::Mapper108(m) => None,
            Mapper::Mapper190(m) => None,
            Mapper::Mapper168(m) => None,
            Mapper::Mapper170(m) => None,
            Mapper::Mapper177(m) => None,
            Mapper::Mapper230(m) => None,
            Mapper::Mapper233(m) => None,
            Mapper::Mapper116(m) => None,
            _ => self.peek_nametable_spec_4(addr, ciram),
        }
    }

    pub open spec fn peek_nametable_spec_4(&self, addr: u16, ciram: &[u8; 0x1000]) -> Option<u8> {
        match self {
            Mapper::TaitoTc0190(m) => None,
            Mapper::TaitoX1005(m) => m.peek_nametable(addr, ciram),
            Mapper::TaitoX1017(m) => None,
            Mapper::ActionEnterprises(m) => None,
            Mapper::AddrLatch16k(m) => None,
            Mapper::BandaiFcg(m) => None,
            Mapper::Mapper15(m) => None,
            Mapper::Action53(m) => None,
            Mapper::Mapper53(m) => None,
            Mapper::Mapper51(m) => None,
            Mapper::Mapper57(m) => None,
            Mapper::Mapper63(m) => None,
            Mapper::Mapper128(m) => None,
            Mapper::Mapper226(m) => None,
            Mapper::Mapper240(m) => None,
            Mapper::Mapper241(m) => None,
            _ => self.peek_nametable_spec_5(addr, ciram),
        }
    }

    pub open spec fn peek_nametable_spec_5(&self, addr: u16, ciram: &[u8; 0x1000]) -> Option<u8> {
        match self {
            Mapper::Mapper244(m) => None,
            Mapper::Mapper246(m) => None,
            Mapper::Mapper236(m) => None,
            Mapper::Mapper237(m) => None,
            Mapper::Mapper31(m) => None,
            Mapper::Mapper96(m) => None,
            Mapper::Nina03_06(m) => None,
            Mapper::Caltron41(m) => None,
            Mapper::ColorDreams46(m) => None,
            Mapper::Mapper151(m) => None,
            Mapper::JalecoJf16(m) => None,
            Mapper::JalecoJfxx(m) => None,
            Mapper::JalecoJf13(m) => None,
            Mapper::UnromVariantMapper(m) => None,
            Mapper::IremG101(m) => None,
            Mapper::IremLrog017(m) => None,
            _ => self.peek_nametable_spec_6(addr, ciram),
        }
    }

    pub open spec fn peek_nametable_spec_6(&self, addr: u16, ciram: &[u8; 0x1000]) -> Option<u8> {
        match self {
            Mapper::IremTamS1(m) => None,
            Mapper::Vrc1(m) => None,
            Mapper::Mapper18(m) => None,
            Mapper::Mapper40(m) => None,
            Mapper::Mapper42(m) => None,
            Mapper::Mapper50(m) => None,
            Mapper::Mapper65(m) => None,
            Mapper::Mapper67(m) => None,
            Mapper::Mapper73(m) => None,
            Mapper::Mapper117(m) => None,
            Mapper::Mapper175(m) => None,
            Mapper::Mapper234(m) => None,
            Mapper::Mapper60(m) => None,
            Mapper::Mapper83(m) => None,
            Mapper::Mapper183(m) => None,
            Mapper::Mapper212(m) => None,
            _ => self.peek_nametable_spec_7(addr, ciram),
        }
    }

    pub open spec fn peek_nametable_spec_7(&self, addr: u16, ciram: &[u8; 0x1000]) -> Option<u8> {
        match self {
            Mapper::Mapper222(m) => None,
            Mapper::Mapper235(m) => None,
            Mapper::Mapper272(m) => m.peek_nametable(addr, ciram),
            Mapper::Mapper330(m) => m.peek_nametable(addr, ciram),
            Mapper::Mapper91(m) => None,
            Mapper::JyAsic(m) => m.peek_nametable(addr, ciram),
            _ => None,
        }
    }

    /// A nametable byte the board supplies (from CIRAM pages it picks), if any.
    pub fn peek_nametable(&self, addr: u16, ciram: &[u8; 0x1000]) -> (r: Option<u8>)
        requires self.wf(), (addr / 0x2000) % 2 == 1,
        ensures r == self.peek_nametable_spec(addr, ciram),
    {
        match self {
            Mapper::Nrom(m) => None,
            Mapper::Unrom(m) => None,
            Mapper::Cnrom(m) => None,
            Mapper::Axrom(m) => None,
            Mapper::ColorDreams(m) => None,
            Mapper::Gxrom(m) => None,
            Mapper::Codemasters(m) => None,
            Mapper::Bf9096(m) => None,
            Mapper::Cprom(m) => None,
            Mapper::Bandai74161(m) => None,
            Mapper::Mapper36(m) => None,
            Mapper::Mapper81(m) => None,
            Mapper::Mapper8(m) => None,
            Mapper::Mapper99(m) => None,
            Mapper::Mapper29(m) => None,
            Mapper::UnlPci556(m) => None,
            _ => self.peek_nametable_1(addr, ciram),
        }
    }

    fn peek_nametable_1(&self, addr: u16, ciram: &[u8; 0x1000]) -> (r: Option<u8>)
        requires self.wf(), (addr / 0x2000) % 2 == 1,
        ensures r == self.peek_nametable_spec_1(addr, ciram),
    {
        match self {
            Mapper::Mapper72(m) => None,
            Mapper::Mapper122(m) => None,
            Mapper::Mapper79(m) => None,
            Mapper::Mapper107(m) => None,
            Mapper::Mapper92(m) => None,
            Mapper::JalecoJf11_14(m) => None,
            Mapper::Mapper203(m) => None,
            Mapper::Mapper185(m) => None,
            Mapper::Mapper188(m) => None,
            Mapper::Mapper193(m) => None,
            Mapper::Mapper186(m) => None,
            Mapper::Mapper218(m) => None,
            Mapper::Bnrom(m) => None,
            Mapper::Nina01(m) => None,
            Mapper::Sachen133(m) => None,
            Mapper::SachenSa0161m(m) => None,
            _ => self.peek_nametable_2(addr, ciram),
        }
    }

    fn peek_nametable_2(&self, addr: u16, ciram: &[u8; 0x1000]) -> (r: Option<u8>)
        requires self.wf(), (addr / 0x2000) % 2 == 1,
        ensures r == self.peek_nametable_spec_2(addr, ciram),
    {
        match self {
            Mapper::Sachen149(m) => None,
            Mapper::Sachen8259(m) => None,
            Mapper::Sachen74Ls374N(m) => None,
            Mapper::Sunsoft4(m) => None,
            Mapper::Sunsoft184(m) => None,
            Mapper::Sunsoft89(m) => None,
            Mapper::Mapper271(m) => None,
            Mapper::Mapper285(m) => None,
            Mapper::Mapper310(m) => None,
            Mapper::Mapper319(m) => None,
            Mapper::Mapper326(m) => m.peek_nametable(addr, ciram),
            Mapper::Mapper156(m) => None,
            Mapper::Subor166(m) => None,
            Mapper::NanjingMapper(m) => None,
            Mapper::Ntdec112(m) => None,
            Mapper::Tf1201(m) => None,
            _ => self.peek_nametable_3(addr, ciram),
        }
    }

    fn peek_nametable_3(&self, addr: u16, ciram: &[u8; 0x1000]) -> (r: Option<u8>)
        requires self.wf(), (addr / 0x2000) % 2 == 1,
        ensures r == self.peek_nametable_spec_3(addr, ciram),
    {
        match self {
            Mapper::TxcMapper(m) => None,
            Mapper::Namco118(m) => None,
            Mapper::Namco108Mapper95(m) => m.peek_nametable(addr, ciram),
            Mapper::Namco108Mapper206(m) => None,
            Mapper::Namco108Mapper154(m) => None,
            Mapper::Mapper103(m) => None,
            Mapper::Mapper120(m) => None,
            Mapper::Mapper104(m) => None,
            Mapper::Mapper108(m) => None,
            Mapper::Mapper190(m) => None,
            Mapper::Mapper168(m) => None,
            Mapper::Mapper170(m) => None,
            Mapper::Mapper177(m) => None,
            Mapper::Mapper230(m) => None,
            Mapper::Mapper233(m) => None,
            Mapper::Mapper116(m) => None,
            _ => self.peek_nametable_4(addr, ciram),
        }
    }

    fn peek_nametable_4(&self, addr: u16, ciram: &[u8; 0x1000]) -> (r: Option<u8>)
        requires self.wf(), (addr / 0x2000) % 2 == 1,
        ensures r == self.peek_nametable_spec_4(addr, ciram),
    {
        match self {
            Mapper::TaitoTc0190(m) => None,
            Mapper::TaitoX1005(m) => m.peek_nametable(addr, ciram),
            Mapper::TaitoX1017(m) => None,
            Mapper::ActionEnterprises(m) => None,
            Mapper::AddrLatch16k(m) => None,
            Mapper::BandaiFcg(m) => None,
            Mapper::Mapper15(m) => None,
            Mapper::Action53(m) => None,
            Mapper::Mapper53(m) => None,
            Mapper::Mapper51(m) => None,
            Mapper::Mapper57(m) => None,
            Mapper::Mapper63(m) => None,
            Mapper::Mapper128(m) => None,
            Mapper::Mapper226(m) => None,
            Mapper::Mapper240(m) => None,
            Mapper::Mapper241(m) => None,
            _ => self.peek_nametable_5(addr, ciram),
        }
    }

    fn peek_nametable_5(&self, addr: u16, ciram: &[u8; 0x1000]) -> (r: Option<u8>)
        requires self.wf(), (addr / 0x2000) % 2 == 1,
        ensures r == self.peek_nametable_spec_5(addr, ciram),
    {
        match self {
            Mapper::Mapper244(m) => None,
            Mapper::Mapper246(m) => None,
            Mapper::Mapper236(m) => None,
            Mapper::Mapper237(m) => None,
            Mapper::Mapper31(m) => None,
            Mapper::Mapper96(m) => None,
            Mapper::Nina03_06(m) => None,
            Mapper::Caltron41(m) => None,
            Mapper::ColorDreams46(m) => None,
            Mapper::Mapper151(m) => None,
            Mapper::JalecoJf16(m) => None,
            Mapper::JalecoJfxx(m) => None,
            Mapper::JalecoJf13(m) => None,
            Mapper::UnromVariantMapper(m) => None,
            Mapper::IremG101(m) => None,
            Mapper::IremLrog017(m) => None,
            _ => self.peek_nametable_6(addr, ciram),
        }
    }

    fn peek_nametable_6(&self, addr: u16, ciram: &[u8; 0x1000]) -> (r: Option<u8>)
        requires self.wf(), (addr / 0x2000) % 2 == 1,
        ensures r == self.peek_nametable_spec_6(addr, ciram),
    {
        match self {
            Mapper::IremTamS1(m) => None,
            Mapper::Vrc1(m) => None,
            Mapper::Mapper18(m) => None,
            Mapper::Mapper40(m) => None,
            Mapper::Mapper42(m) => None,
            Mapper::Mapper50(m) => None,
            Mapper::Mapper65(m) => None,
            Mapper::Mapper67(m) => None,
            Mapper::Mapper73(m) => None,
            Mapper::Mapper117(m) => None,
            Mapper::Mapper175(m) => None,
            Mapper::Mapper234(m) => None,
            Mapper::Mapper60(m) => None,
            Mapper::Mapper83(m) => None,
            Mapper::Mapper183(m) => None,
            Mapper::Mapper212(m) => None,
            _ => self.peek_nametable_7(addr, ciram),
        }
    }

    fn peek_nametable_7(&self, addr: u16, ciram: &[u8; 0x1000]) -> (r: Option<u8>)
        requires self.wf(), (addr / 0x2000) % 2 == 1,
        ensures r == self.peek_nametable_spec_7(addr, ciram),
    {
        match self {
            Mapper::Mapper222(m) => None,
            Mapper::Mapper235(m) => None,
            Mapper::Mapper272(m) => m.peek_nametable(addr, ciram),
            Mapper::Mapper330(m) => m.peek_nametable(addr, ciram),
            Mapper::Mapper91(m) => None,
            Mapper::JyAsic(m) => m.peek_nametable(addr, ciram),
            _ => None,
        }
    }

    /// Nametable reads have no side effects on the supported boards.
    pub fn nametable_read(&mut self, addr: u16, ciram: &[u8; 0x1000]) -> (r: Option<u8>)
        requires old(self).wf(), (addr / 0x2000) % 2 == 1,
        ensures r == old(self).peek_nametable_spec(addr, ciram), *final(self) == *old(self),
    {
        self.peek_nametable(addr, ciram)
    }

    pub open spec fn claims_nametable_write_spec(&self, addr: u16) -> bool {
        match self {
            Mapper::Mapper326(m) => true,
            Mapper::Namco108Mapper95(m) => true,
            Mapper::TaitoX1005(m) => m.claims_nametable_write(addr),
            Mapper::Mapper272(m) => true,
            Mapper::Mapper330(m) => true,
            Mapper::JyAsic(m) => m.claims_nametable_write(addr),
            _ => false,
        }
    }

    /// What a nametable write does to CIRAM (`before` to `after`).
    pub open spec fn nametable_wrote(&self, addr: u16, value: u8, before: Seq<u8>, after: Seq<u8>) -> bool {
        match self {
            Mapper::Mapper326(m) => m.nametable_wrote(addr, value, before, after),
            Mapper::Namco108Mapper95(m) => m.nametable_wrote(addr, value, before, after),
            Mapper::TaitoX1005(m) => m.nametable_wrote(addr, value, before, after),
            Mapper::Mapper272(m) => m.nametable_wrote(addr, value, before, after),
            Mapper::Mapper330(m) => m.nametable_wrote(addr, value, before, after),
            Mapper::JyAsic(m) => m.nametable_wrote(addr, value, before, after),
            _ => after == before,
        }
    }

    /// A nametable write the board routes itself; true when claimed.
    pub fn nametable_write(&mut self, addr: u16, value: u8, ciram: &mut [u8; 0x1000]) -> (r: bool)
        requires old(self).wf(), (addr / 0x2000) % 2 == 1,
        ensures
            r == old(self).claims_nametable_write_spec(addr),
            old(self).nametable_wrote(addr, value, old(ciram)@, final(ciram)@),
            *final(self) == *old(self),
    {
        match self {
            Mapper::Mapper326(m) => m.nametable_write(addr, value, ciram),
            Mapper::Namco108Mapper95(m) => m.nametable_write(addr, value, ciram),
            Mapper::TaitoX1005(m) => m.nametable_write(addr, value, ciram),
            Mapper::Mapper272(m) => m.nametable_write(addr, value, ciram),
            Mapper::Mapper330(m) => m.nametable_write(addr, value, ciram),
            Mapper::JyAsic(m) => m.nametable_write(addr, value, ciram),
            _ => false,
        }
    }

    pub open spec fn clocks_hblank_spec(&self) -> bool {
        match self {
            Mapper::Nrom(m) => false,
            Mapper::Unrom(m) => false,
            Mapper::Cnrom(m) => false,
            Mapper::Axrom(m) => false,
            Mapper::ColorDreams(m) => false,
            Mapper::Gxrom(m) => false,
            Mapper::Codemasters(m) => false,
            Mapper::Bf9096(m) => false,
            Mapper::Cprom(m) => false,
            Mapper::Bandai74161(m) => false,
            Mapper::Mapper36(m) => false,
            Mapper::Mapper81(m) => false,
            Mapper::Mapper8(m) => false,
            Mapper::Mapper99(m) => false,
            Mapper::Mapper29(m) => false,
            Mapper::UnlPci556(m) => false,
            _ => self.clocks_hblank_spec_1(),
        }
    }

    pub open spec fn clocks_hblank_spec_1(&self) -> bool {
        match self {
            Mapper::Mapper72(m) => false,
            Mapper::Mapper122(m) => false,
            Mapper::Mapper79(m) => false,
            Mapper::Mapper107(m) => false,
            Mapper::Mapper92(m) => false,
            Mapper::JalecoJf11_14(m) => false,
            Mapper::Mapper203(m) => false,
            Mapper::Mapper185(m) => false,
            Mapper::Mapper188(m) => false,
            Mapper::Mapper193(m) => false,
            Mapper::Mapper186(m) => false,
            Mapper::Mapper218(m) => false,
            Mapper::Bnrom(m) => false,
            Mapper::Nina01(m) => false,
            Mapper::Sachen133(m) => false,
            Mapper::SachenSa0161m(m) => false,
            _ => self.clocks_hblank_spec_2(),
        }
    }

    pub open spec fn clocks_hblank_spec_2(&self) -> bool {
        match self {
            Mapper::Sachen149(m) => false,
            Mapper::Sachen8259(m) => false,
            Mapper::Sachen74Ls374N(m) => false,
            Mapper::Sunsoft4(m) => false,
            Mapper::Sunsoft184(m) => false,
            Mapper::Sunsoft89(m) => false,
            Mapper::Mapper271(m) => false,
            Mapper::Mapper285(m) => false,
            Mapper::Mapper310(m) => false,
            Mapper::Mapper319(m) => false,
            Mapper::Mapper326(m) => false,
            Mapper::Mapper156(m) => false,
            Mapper::Subor166(m) => false,
            Mapper::NanjingMapper(m) => m.clocks_hblank(),
            Mapper::Ntdec112(m) => false,
            Mapper::Tf1201(m) => false,
            _ => self.clocks_hblank_spec_3(),
        }
    }

    pub open spec fn clocks_hblank_spec_3(&self) -> bool {
        match self {
            Mapper::TxcMapper(m) => false,
            Mapper::Namco118(m) => false,
            Mapper::Namco108Mapper95(m) => false,
            Mapper::Namco108Mapper206(m) => false,
            Mapper::Namco108Mapper154(m) => false,
            Mapper::Mapper103(m) => false,
            Mapper::Mapper120(m) => false,
            Mapper::Mapper104(m) => false,
            Mapper::Mapper108(m) => false,
            Mapper::Mapper190(m) => false,
            Mapper::Mapper168(m) => false,
            Mapper::Mapper170(m) => false,
            Mapper::Mapper177(m) => false,
            Mapper::Mapper230(m) => false,
            Mapper::Mapper233(m) => false,
            Mapper::Mapper116(m) => false,
            _ => self.clocks_hblank_spec_4(),
        }
    }

    pub open spec fn clocks_hblank_spec_4(&self) -> bool {
        match self {
            Mapper::TaitoTc0190(m) => false,
            Mapper::TaitoX1005(m) => false,
            Mapper::TaitoX1017(m) => false,
            Mapper::ActionEnterprises(m) => false,
            Mapper::AddrLatch16k(m) => false,
            Mapper::BandaiFcg(m) => false,
            Mapper::Mapper15(m) => false,
            Mapper::Action53(m) => false,
            Mapper::Mapper53(m) => false,
            Mapper::Mapper51(m) => false,
            Mapper::Mapper57(m) => false,
            Mapper::Mapper63(m) => false,
            Mapper::Mapper128(m) => false,
            Mapper::Mapper226(m) => false,
            Mapper::Mapper240(m) => false,
            Mapper::Mapper241(m) => false,
            _ => self.clocks_hblank_spec_5(),
        }
    }

    pub open spec fn clocks_hblank_spec_5(&self) -> bool {
        match self {
            Mapper::Mapper244(m) => false,
            Mapper::Mapper246(m) => false,
            Mapper::Mapper236(m) => false,
            Mapper::Mapper237(m) => false,
            Mapper::Mapper31(m) => false,
            Mapper::Mapper96(m) => false,
            Mapper::Nina03_06(m) => false,
            Mapper::Caltron41(m) => false,
            Mapper::ColorDreams46(m) => false,
            Mapper::Mapper151(m) => false,
            Mapper::JalecoJf16(m) => false,
            Mapper::JalecoJfxx(m) => false,
            Mapper::JalecoJf13(m) => false,
            Mapper::UnromVariantMapper(m) => false,
            Mapper::IremG101(m) => false,
            Mapper::IremLrog017(m) => false,
            _ => self.clocks_hblank_spec_6(),
        }
    }

    pub open spec fn clocks_hblank_spec_6(&self) -> bool {
        match self {
            Mapper::IremTamS1(m) => false,
            Mapper::Vrc1(m) => false,
            Mapper::Mapper18(m) => false,
            Mapper::Mapper40(m) => false,
            Mapper::Mapper42(m) => false,
            Mapper::Mapper50(m) => false,
            Mapper::Mapper65(m) => false,
            Mapper::Mapper67(m) => false,
            Mapper::Mapper73(m) => false,
            Mapper::Mapper117(m) => false,
            Mapper::Mapper175(m) => false,
            Mapper::Mapper234(m) => false,
            Mapper::Mapper60(m) => false,
            Mapper::Mapper83(m) => false,
            Mapper::Mapper183(m) => false,
            Mapper::Mapper212(m) => false,
            _ => self.clocks_hblank_spec_7(),
        }
    }

    pub open spec fn clocks_hblank_spec_7(&self) -> bool {
        match self {
            Mapper::Mapper222(m) => false,
            Mapper::Mapper235(m) => false,
            Mapper::Mapper272(m) => false,
            Mapper::Mapper330(m) => false,
            Mapper::Mapper91(m) => m.clocks_hblank(),
            Mapper::JyAsic(m) => m.clocks_hblank(),
            _ => false,
        }
    }

    /// Does the board take an H-blank tick each scanline?
    pub fn clocks_hblank(&self) -> (r: bool)
        requires self.wf(),
        ensures r == self.clocks_hblank_spec(),
    {
        match self {
            Mapper::Nrom(m) => false,
            Mapper::Unrom(m) => false,
            Mapper::Cnrom(m) => false,
            Mapper::Axrom(m) => false,
            Mapper::ColorDreams(m) => false,
            Mapper::Gxrom(m) => false,
            Mapper::Codemasters(m) => false,
            Mapper::Bf9096(m) => false,
            Mapper::Cprom(m) => false,
            Mapper::Bandai74161(m) => false,
            Mapper::Mapper36(m) => false,
            Mapper::Mapper81(m) => false,
            Mapper::Mapper8(m) => false,
            Mapper::Mapper99(m) => false,
            Mapper::Mapper29(m) => false,
            Mapper::UnlPci556(m) => false,
            _ => self.clocks_hblank_1(),
        }
    }

    fn clocks_hblank_1(&self) -> (r: bool)
        requires self.wf(),
        ensures r == self.clocks_hblank_spec_1(),
    {
        match self {
            Mapper::Mapper72(m) => false,
            Mapper::Mapper122(m) => false,
            Mapper::Mapper79(m) => false,
            Mapper::Mapper107(m) => false,
            Mapper::Mapper92(m) => false,
            Mapper::JalecoJf11_14(m) => false,
            Mapper::Mapper203(m) => false,
            Mapper::Mapper185(m) => false,
            Mapper::Mapper188(m) => false,
            Mapper::Mapper193(m) => false,
            Mapper::Mapper186(m) => false,
            Mapper::Mapper218(m) => false,
            Mapper::Bnrom(m) => false,
            Mapper::Nina01(m) => false,
            Mapper::Sachen133(m) => false,
            Mapper::SachenSa0161m(m) => false,
            _ => self.clocks_hblank_2(),
        }
    }

    fn clocks_hblank_2(&self) -> (r: bool)
        requires self.wf(),
        ensures r == self.clocks_hblank_spec_2(),
    {
        match self {
            Mapper::Sachen149(m) => false,
            Mapper::Sachen8259(m) => false,
            Mapper::Sachen74Ls374N(m) => false,
            Mapper::Sunsoft4(m) => false,
            Mapper::Sunsoft184(m) => false,
            Mapper::Sunsoft89(m) => false,
            Mapper::Mapper271(m) => false,
            Mapper::Mapper285(m) => false,
            Mapper::Mapper310(m) => false,
            Mapper::Mapper319(m) => false,
            Mapper::Mapper326(m) => false,
            Mapper::Mapper156(m) => false,
            Mapper::Subor166(m) => false,
            Mapper::NanjingMapper(m) => m.clocks_hblank(),
            Mapper::Ntdec112(m) => false,
            Mapper::Tf1201(m) => false,
            _ => self.clocks_hblank_3(),
        }
    }

    fn clocks_hblank_3(&self) -> (r: bool)
        requires self.wf(),
        ensures r == self.clocks_hblank_spec_3(),
    {
        match self {
            Mapper::TxcMapper(m) => false,
            Mapper::Namco118(m) => false,
            Mapper::Namco108Mapper95(m) => false,
            Mapper::Namco108Mapper206(m) => false,
            Mapper::Namco108Mapper154(m) => false,
            Mapper::Mapper103(m) => false,
            Mapper::Mapper120(m) => false,
            Mapper::Mapper104(m) => false,
            Mapper::Mapper108(m) => false,
            Mapper::Mapper190(m) => false,
            Mapper::Mapper168(m) => false,
            Mapper::Mapper170(m) => false,
            Mapper::Mapper177(m) => false,
            Mapper::Mapper230(m) => false,
            Mapper::Mapper233(m) => false,
            Mapper::Mapper116(m) => false,
            _ => self.clocks_hblank_4(),
        }
    }

    fn clocks_hblank_4(&self) -> (r: bool)
        requires self.wf(),
        ensures r == self.clocks_hblank_spec_4(),
    {
        match self {
            Mapper::TaitoTc0190(m) => false,
            Mapper::TaitoX1005(m) => false,
            Mapper::TaitoX1017(m) => false,
            Mapper::ActionEnterprises(m) => false,
            Mapper::AddrLatch16k(m) => false,
            Mapper::BandaiFcg(m) => false,
            Mapper::Mapper15(m) => false,
            Mapper::Action53(m) => false,
            Mapper::Mapper53(m) => false,
            Mapper::Mapper51(m) => false,
            Mapper::Mapper57(m) => false,
            Mapper::Mapper63(m) => false,
            Mapper::Mapper128(m) => false,
            Mapper::Mapper226(m) => false,
            Mapper::Mapper240(m) => false,
            Mapper::Mapper241(m) => false,
            _ => self.clocks_hblank_5(),
        }
    }

    fn clocks_hblank_5(&self) -> (r: bool)
        requires self.wf(),
        ensures r == self.clocks_hblank_spec_5(),
    {
        match self {
            Mapper::Mapper244(m) => false,
            Mapper::Mapper246(m) => false,
            Mapper::Mapper236(m) => false,
            Mapper::Mapper237(m) => false,
            Mapper::Mapper31(m) => false,
            Mapper::Mapper96(m) => false,
            Mapper::Nina03_06(m) => false,
            Mapper::Caltron41(m) => false,
            Mapper::ColorDreams46(m) => false,
            Mapper::Mapper151(m) => false,
            Mapper::JalecoJf16(m) => false,
            Mapper::JalecoJfxx(m) => false,
            Mapper::JalecoJf13(m) => false,
            Mapper::UnromVariantMapper(m) => false,
            Mapper::IremG101(m) => false,
            Mapper::IremLrog017(m) => false,
            _ => self.clocks_hblank_6(),
        }
    }

    fn clocks_hblank_6(&self) -> (r: bool)
        requires self.wf(),
        ensures r == self.clocks_hblank_spec_6(),
    {
        match self {
            Mapper::IremTamS1(m) => false,
            Mapper::Vrc1(m) => false,
            Mapper::Mapper18(m) => false,
            Mapper::Mapper40(m) => false,
            Mapper::Mapper42(m) => false,
            Mapper::Mapper50(m) => false,
            Mapper::Mapper65(m) => false,
            Mapper::Mapper67(m) => false,
            Mapper::Mapper73(m) => false,
            Mapper::Mapper117(m) => false,
            Mapper::Mapper175(m) => false,
            Mapper::Mapper234(m) => false,
            Mapper::Mapper60(m) => false,
            Mapper::Mapper83(m) => false,
            Mapper::Mapper183(m) => false,
            Mapper::Mapper212(m) => false,
            _ => self.clocks_hblank_7(),
        }
    }

    fn clocks_hblank_7(&self) -> (r: bool)
        requires self.wf(),
        ensures r == self.clocks_hblank_spec_7(),
    {
        match self {
            Mapper::Mapper222(m) => false,
            Mapper::Mapper235(m) => false,
            Mapper::Mapper272(m) => false,
            Mapper::Mapper330(m) => false,
            Mapper::Mapper91(m) => m.clocks_hblank(),
            Mapper::JyAsic(m) => m.clocks_hblank(),
            _ => false,
        }
    }

    pub open spec fn irq_spec(&self) -> bool {
        match self {
            Mapper::Nrom(m) => false,
            Mapper::Unrom(m) => false,
            Mapper::Cnrom(m) => false,
            Mapper::Axrom(m) => false,
            Mapper::ColorDreams(m) => false,
            Mapper::Gxrom(m) => false,
            Mapper::Codemasters(m) => false,
            Mapper::Bf9096(m) => false,
            Mapper::Cprom(m) => false,
            Mapper::Bandai74161(m) => false,
            Mapper::Mapper36(m) => false,
            Mapper::Mapper81(m) => false,
            Mapper::Mapper8(m) => false,
            Mapper::Mapper99(m) => false,
            Mapper::Mapper29(m) => false,
            Mapper::UnlPci556(m) => false,
            _ => self.irq_spec_1(),
        }
    }

    pub open spec fn irq_spec_1(&self) -> bool {
        match self {
            Mapper::Mapper72(m) => false,
            Mapper::Mapper122(m) => false,
            Mapper::Mapper79(m) => false,
            Mapper::Mapper107(m) => false,
            Mapper::Mapper92(m) => false,
            Mapper::JalecoJf11_14(m) => false,
            Mapper::Mapper203(m) => false,
            Mapper::Mapper185(m) => false,
            Mapper::Mapper188(m) => false,
            Mapper::Mapper193(m) => false,
            Mapper::Mapper186(m) => false,
            Mapper::Mapper218(m) => false,
            Mapper::Bnrom(m) => false,
            Mapper::Nina01(m) => false,
            Mapper::Sachen133(m) => false,
            Mapper::SachenSa0161m(m) => false,
            _ => self.irq_spec_2(),
        }
    }

    pub open spec fn irq_spec_2(&self) -> bool {
        match self {
            Mapper::Sachen149(m) => false,
            Mapper::Sachen8259(m) => false,
            Mapper::Sachen74Ls374N(m) => false,
            Mapper::Sunsoft4(m) => false,
            Mapper::Sunsoft184(m) => false,
            Mapper::Sunsoft89(m) => false,
            Mapper::Mapper271(m) => false,
            Mapper::Mapper285(m) => false,
            Mapper::Mapper310(m) => false,
            Mapper::Mapper319(m) => false,
            Mapper::Mapper326(m) => false,
            Mapper::Mapper156(m) => false,
            Mapper::Subor166(m) => false,
            Mapper::NanjingMapper(m) => false,
            Mapper::Ntdec112(m) => false,
            Mapper::Tf1201(m) => m.irq(),
            _ => self.irq_spec_3(),
        }
    }

    pub open spec fn irq_spec_3(&self) -> bool {
        match self {
            Mapper::TxcMapper(m) => false,
            Mapper::Namco118(m) => false,
            Mapper::Namco108Mapper95(m) => false,
            Mapper::Namco108Mapper206(m) => false,
            Mapper::Namco108Mapper154(m) => false,
            Mapper::Mapper103(m) => false,
            Mapper::Mapper120(m) => false,
            Mapper::Mapper104(m) => false,
            Mapper::Mapper108(m) => false,
            Mapper::Mapper190(m) => false,
            Mapper::Mapper168(m) => m.irq(),
            Mapper::Mapper170(m) => false,
            Mapper::Mapper177(m) => false,
            Mapper::Mapper230(m) => false,
            Mapper::Mapper233(m) => false,
            Mapper::Mapper116(m) => m.irq(),
            _ => self.irq_spec_4(),
        }
    }

    pub open spec fn irq_spec_4(&self) -> bool {
        match self {
            Mapper::TaitoTc0190(m) => false,
            Mapper::TaitoX1005(m) => false,
            Mapper::TaitoX1017(m) => false,
            Mapper::ActionEnterprises(m) => false,
            Mapper::AddrLatch16k(m) => false,
            Mapper::BandaiFcg(m) => m.irq(),
            Mapper::Mapper15(m) => false,
            Mapper::Action53(m) => false,
            Mapper::Mapper53(m) => false,
            Mapper::Mapper51(m) => false,
            Mapper::Mapper57(m) => false,
            Mapper::Mapper63(m) => false,
            Mapper::Mapper128(m) => false,
            Mapper::Mapper226(m) => false,
            Mapper::Mapper240(m) => false,
            Mapper::Mapper241(m) => false,
            _ => self.irq_spec_5(),
        }
    }

    pub open spec fn irq_spec_5(&self) -> bool {
        match self {
            Mapper::Mapper244(m) => false,
            Mapper::Mapper246(m) => false,
            Mapper::Mapper236(m) => false,
            Mapper::Mapper237(m) => false,
            Mapper::Mapper31(m) => false,
            Mapper::Mapper96(m) => false,
            Mapper::Nina03_06(m) => false,
            Mapper::Caltron41(m) => false,
            Mapper::ColorDreams46(m) => false,
            Mapper::Mapper151(m) => false,
            Mapper::JalecoJf16(m) => false,
            Mapper::JalecoJfxx(m) => false,
            Mapper::JalecoJf13(m) => false,
            Mapper::UnromVariantMapper(m) => false,
            Mapper::IremG101(m) => false,
            Mapper::IremLrog017(m) => false,
            _ => self.irq_spec_6(),
        }
    }

    pub open spec fn irq_spec_6(&self) -> bool {
        match self {
            Mapper::IremTamS1(m) => false,
            Mapper::Vrc1(m) => false,
            Mapper::Mapper18(m) => m.irq(),
            Mapper::Mapper40(m) => m.irq(),
            Mapper::Mapper42(m) => m.irq(),
            Mapper::Mapper50(m) => m.irq(),
            Mapper::Mapper65(m) => m.irq(),
            Mapper::Mapper67(m) => m.irq(),
            Mapper::Mapper73(m) => m.irq(),
            Mapper::Mapper117(m) => m.irq(),
            Mapper::Mapper175(m) => false,
            Mapper::Mapper234(m) => false,
            Mapper::Mapper60(m) => false,
            Mapper::Mapper83(m) => m.irq(),
            Mapper::Mapper183(m) => m.irq(),
            Mapper::Mapper212(m) => false,
            _ => self.irq_spec_7(),
        }
    }

    pub open spec fn irq_spec_7(&self) -> bool {
        match self {
            Mapper::Mapper222(m) => m.irq(),
            Mapper::Mapper235(m) => false,
            Mapper::Mapper272(m) => m.irq(),
            Mapper::Mapper330(m) => m.irq(),
            Mapper::Mapper91(m) => m.irq(),
            Mapper::JyAsic(m) => m.irq(),
            _ => false,
        }
    }

    /// Is the board asserting /IRQ?
    pub fn irq(&self) -> (r: bool)
        requires self.wf(),
        ensures r == self.irq_spec(),
    {
        match self {
            Mapper::Nrom(m) => false,
            Mapper::Unrom(m) => false,
            Mapper::Cnrom(m) => false,
            Mapper::Axrom(m) => false,
            Mapper::ColorDreams(m) => false,
            Mapper::Gxrom(m) => false,
            Mapper::Codemasters(m) => false,
            Mapper::Bf9096(m) => false,
            Mapper::Cprom(m) => false,
            Mapper::Bandai74161(m) => false,
            Mapper::Mapper36(m) => false,
            Mapper::Mapper81(m) => false,
            Mapper::Mapper8(m) => false,
            Mapper::Mapper99(m) => false,
            Mapper::Mapper29(m) => false,
            Mapper::UnlPci556(m) => false,
            _ => self.irq_1(),
        }
    }

    fn irq_1(&self) -> (r: bool)
        requires self.wf(),
        ensures r == self.irq_spec_1(),
    {
        match self {
            Mapper::Mapper72(m) => false,
            Mapper::Mapper122(m) => false,
            Mapper::Mapper79(m) => false,
            Mapper::Mapper107(m) => false,
            Mapper::Mapper92(m) => false,
            Mapper::JalecoJf11_14(m) => false,
            Mapper::Mapper203(m) => false,
            Mapper::Mapper185(m) => false,
            Mapper::Mapper188(m) => false,
            Mapper::Mapper193(m) => false,
            Mapper::Mapper186(m) => false,
            Mapper::Mapper218(m) => false,
            Mapper::Bnrom(m) => false,
            Mapper::Nina01(m) => false,
            Mapper::Sachen133(m) => false,
            Mapper::SachenSa0161m(m) => false,
            _ => self.irq_2(),
        }
    }

    fn irq_2(&self) -> (r: bool)
        requires self.wf(),
        ensures r == self.irq_spec_2(),
    {
        match self {
            Mapper::Sachen149(m) => false,
            Mapper::Sachen8259(m) => false,
            Mapper::Sachen74Ls374N(m) => false,
            Mapper::Sunsoft4(m) => false,
            Mapper::Sunsoft184(m) => false,
            Mapper::Sunsoft89(m) => false,
            Mapper::Mapper271(m) => false,
            Mapper::Mapper285(m) => false,
            Mapper::Mapper310(m) => false,
            Mapper::Mapper319(m) => false,
            Mapper::Mapper326(m) => false,
            Mapper::Mapper156(m) => false,
            Mapper::Subor166(m) => false,
            Mapper::NanjingMapper(m) => false,
            Mapper::Ntdec112(m) => false,
            Mapper::Tf1201(m) => m.irq(),
            _ => self.irq_3(),
        }
    }

    fn irq_3(&self) -> (r: bool)
        requires self.wf(),
        ensures r == self.irq_spec_3(),
    {
        match self {
            Mapper::TxcMapper(m) => false,
            Mapper::Namco118(m) => false,
            Mapper::Namco108Mapper95(m) => false,
            Mapper::Namco108Mapper206(m) => false,
            Mapper::Namco108Mapper154(m) => false,
            Mapper::Mapper103(m) => false,
            Mapper::Mapper120(m) => false,
            Mapper::Mapper104(m) => false,
            Mapper::Mapper108(m) => false,
            Mapper::Mapper190(m) => false,
            Mapper::Mapper168(m) => m.irq(),
            Mapper::Mapper170(m) => false,
            Mapper::Mapper177(m) => false,
            Mapper::Mapper230(m) => false,
            Mapper::Mapper233(m) => false,
            Mapper::Mapper116(m) => m.irq(),
            _ => self.irq_4(),
        }
    }

    fn irq_4(&self) -> (r: bool)
        requires self.wf(),
        ensures r == self.irq_spec_4(),
    {
        match self {
            Mapper::TaitoTc0190(m) => false,
            Mapper::TaitoX1005(m) => false,
            Mapper::TaitoX1017(m) => false,
            Mapper::ActionEnterprises(m) => false,
            Mapper::AddrLatch16k(m) => false,
            Mapper::BandaiFcg(m) => m.irq(),
            Mapper::Mapper15(m) => false,
            Mapper::Action53(m) => false,
            Mapper::Mapper53(m) => false,
            Mapper::Mapper51(m) => false,
            Mapper::Mapper57(m) => false,
            Mapper::Mapper63(m) => false,
            Mapper::Mapper128(m) => false,
            Mapper::Mapper226(m) => false,
            Mapper::Mapper240(m) => false,
            Mapper::Mapper241(m) => false,
            _ => self.irq_5(),
        }
    }

    fn irq_5(&self) -> (r: bool)
        requires self.wf(),
        ensures r == self.irq_spec_5(),
    {
        match self {
            Mapper::Mapper244(m) => false,
            Mapper::Mapper246(m) => false,
            Mapper::Mapper236(m) => false,
            Mapper::Mapper237(m) => false,
            Mapper::Mapper31(m) => false,
            Mapper::Mapper96(m) => false,
            Mapper::Nina03_06(m) => false,
            Mapper::Caltron41(m) => false,
            Mapper::ColorDreams46(m) => false,
            Mapper::Mapper151(m) => false,
            Mapper::JalecoJf16(m) => false,
            Mapper::JalecoJfxx(m) => false,
            Mapper::JalecoJf13(m) => false,
            Mapper::UnromVariantMapper(m) => false,
            Mapper::IremG101(m) => false,
            Mapper::IremLrog017(m) => false,
            _ => self.irq_6(),
        }
    }

    fn irq_6(&self) -> (r: bool)
        requires self.wf(),
        ensures r == self.irq_spec_6(),
    {
        match self {
            Mapper::IremTamS1(m) => false,
            Mapper::Vrc1(m) => false,
            Mapper::Mapper18(m) => m.irq(),
            Mapper::Mapper40(m) => m.irq(),
            Mapper::Mapper42(m) => m.irq(),
            Mapper::Mapper50(m) => m.irq(),
            Mapper::Mapper65(m) => m.irq(),
            Mapper::Mapper67(m) => m.irq(),
            Mapper::Mapper73(m) => m.irq(),
            Mapper::Mapper117(m) => m.irq(),
            Mapper::Mapper175(m) => false,
            Mapper::Mapper234(m) => false,
            Mapper::Mapper60(m) => false,
            Mapper::Mapper83(m) => m.irq(),
            Mapper::Mapper183(m) => m.irq(),
            Mapper::Mapper212(m) => false,
            _ => self.irq_7(),
        }
    }

    fn irq_7(&self) -> (r: bool)
        requires self.wf(),
        ensures r == self.irq_spec_7(),
    {
        match self {
            Mapper::Mapper222(m) => m.irq(),
            Mapper::Mapper235(m) => false,
            Mapper::Mapper272(m) => m.irq(),
            Mapper::Mapper330(m) => m.irq(),
            Mapper::Mapper91(m) => m.irq(),
            Mapper::JyAsic(m) => m.irq(),
            _ => false,
        }
    }

    /// Which CHR index a fetch of the given kind uses (all supported boards
    /// ignore the fetch kind).
    pub fn chr_index_for(&self, addr: u16, access: ChrAccess) -> (r: usize)
        requires self.wf(), addr < 0x2000,
        ensures r == self.chr_index_spec(addr),
    {
        self.chr_index(addr)
    }

    /// No supported board produces expansion audio.
    pub fn has_expansion_audio(&self) -> (r: bool)
        ensures !r,
    {
        false
    }

    pub open spec fn wrote(old: Mapper, new: Mapper, addr: u16, value: u8) -> bool {
        match (old, new) {
            (Mapper::Nrom(o), Mapper::Nrom(n)) => n == o.written(addr, value),
            (Mapper::Unrom(o), Mapper::Unrom(n)) => n == o.written(addr, value),
            (Mapper::Cnrom(o), Mapper::Cnrom(n)) => n == o.written(addr, value),
            (Mapper::Axrom(o), Mapper::Axrom(n)) => n == o.written(addr, value),
            (Mapper::ColorDreams(o), Mapper::ColorDreams(n)) => n == o.written(addr, value),
            (Mapper::Gxrom(o), Mapper::Gxrom(n)) => n == o.written(addr, value),
            (Mapper::Codemasters(o), Mapper::Codemasters(n)) => n == o.written(addr, value),
            (Mapper::Bf9096(o), Mapper::Bf9096(n)) => n == o.written(addr, value),
            (Mapper::Cprom(o), Mapper::Cprom(n)) => n == o.written(addr, value),
            (Mapper::Bandai74161(o), Mapper::Bandai74161(n)) => n == o.written(addr, value),
            (Mapper::Mapper36(o), Mapper::Mapper36(n)) => n == o.written(addr, value),
            (Mapper::Mapper81(o), Mapper::Mapper81(n)) => n == o.written(addr, value),
            (Mapper::Mapper8(o), Mapper::Mapper8(n)) => n == o.written(addr, value),
            (Mapper::Mapper99(o), Mapper::Mapper99(n)) => n == o.written(addr, value),
            (Mapper::Mapper29(o), Mapper::Mapper29(n)) => n == o.written(addr, value),
            (Mapper::UnlPci556(o), Mapper::UnlPci556(n)) => n == o.written(addr, value),
            _ => Mapper::wrote_1(old, new, addr, value),
        }
    }

    pub open spec fn wrote_1(old: Mapper, new: Mapper, addr: u16, value: u8) -> bool {
        match (old, new) {
            (Mapper::Mapper72(o), Mapper::Mapper72(n)) => n == o.written(addr, value),
            (Mapper::Mapper122(o), Mapper::Mapper122(n)) => n == o.written(addr, value),
            (Mapper::Mapper79(o), Mapper::Mapper79(n)) => n == o.written(addr, value),
            (Mapper::Mapper107(o), Mapper::Mapper107(n)) => n == o.written(addr, value),
            (Mapper::Mapper92(o), Mapper::Mapper92(n)) => n == o.written(addr, value),
            (Mapper::JalecoJf11_14(o), Mapper::JalecoJf11_14(n)) => n == o.written(addr, value),
            (Mapper::Mapper203(o), Mapper::Mapper203(n)) => n == o.written(addr, value),
            (Mapper::Mapper185(o), Mapper::Mapper185(n)) => n == o.written(addr, value),
            (Mapper::Mapper188(o), Mapper::Mapper188(n)) => n == o.written(addr, value),
            (Mapper::Bnrom(o), Mapper::Bnrom(n)) => n == o.written(addr, value),
            (Mapper::Nina01(o), Mapper::Nina01(n)) => n == o.written(addr, value),
            (Mapper::Sachen133(o), Mapper::Sachen133(n)) => n == o.written(addr, value),
            (Mapper::SachenSa0161m(o), Mapper::SachenSa0161m(n)) => n == o.written(addr, value),
            _ => Mapper::wrote_2(old, new, addr, value),
        }
    }

    pub open spec fn wrote_2(old: Mapper, new: Mapper, addr: u16, value: u8) -> bool {
        match (old, new) {
            (Mapper::Sachen149(o), Mapper::Sachen149(n)) => n == o.written(addr, value),
            (Mapper::Sachen8259(o), Mapper::Sachen8259(n)) => Sachen8259::wrote(o, n, addr, value),
            (Mapper::Sachen74Ls374N(o), Mapper::Sachen74Ls374N(n)) => Sachen74Ls374N::wrote(o, n, addr, value),
            (Mapper::Sunsoft4(o), Mapper::Sunsoft4(n)) => Sunsoft4::wrote(o, n, addr, value),
            (Mapper::Sunsoft184(o), Mapper::Sunsoft184(n)) => n == o.written(addr, value),
            (Mapper::Sunsoft89(o), Mapper::Sunsoft89(n)) => n == o.written(addr, value),
            (Mapper::Mapper271(o), Mapper::Mapper271(n)) => n == o.written(addr, value),
            (Mapper::Mapper285(o), Mapper::Mapper285(n)) => n == o.written(addr, value),
            (Mapper::Mapper310(o), Mapper::Mapper310(n)) => Mapper310::wrote(o, n, addr, value),
            (Mapper::Mapper319(o), Mapper::Mapper319(n)) => n == o.written(addr, value),
            (Mapper::Mapper326(o), Mapper::Mapper326(n)) => Mapper326::wrote(o, n, addr, value),
            (Mapper::Mapper156(o), Mapper::Mapper156(n)) => Mapper156::wrote(o, n, addr, value),
            (Mapper::Subor166(o), Mapper::Subor166(n)) => Subor166::wrote(o, n, addr, value),
            (Mapper::NanjingMapper(o), Mapper::NanjingMapper(n)) => n == o.written(addr, value),
            (Mapper::Ntdec112(o), Mapper::Ntdec112(n)) => Ntdec112::wrote(o, n, addr, value),
            (Mapper::Tf1201(o), Mapper::Tf1201(n)) => Tf1201::wrote(o, n, addr, value),
            _ => Mapper::wrote_3(old, new, addr, value),
        }
    }

    pub open spec fn wrote_3(old: Mapper, new: Mapper, addr: u16, value: u8) -> bool {
        match (old, new) {
            (Mapper::TxcMapper(o), Mapper::TxcMapper(n)) => n == o.written(addr, value),
            (Mapper::Namco118(o), Mapper::Namco118(n)) => Namco118::wrote(o, n, addr, value),
            (Mapper::Namco108Mapper95(o), Mapper::Namco108Mapper95(n)) => Namco108Mapper95::wrote(o, n, addr, value),
            (Mapper::Namco108Mapper206(o), Mapper::Namco108Mapper206(n)) => Namco108Mapper206::wrote(o, n, addr, value),
            (Mapper::Namco108Mapper154(o), Mapper::Namco108Mapper154(n)) => Namco108Mapper154::wrote(o, n, addr, value),
            (Mapper::Mapper103(o), Mapper::Mapper103(n)) => n == o.written(addr, value),
            (Mapper::Mapper120(o), Mapper::Mapper120(n)) => n == o.written(addr, value),
            (Mapper::Mapper104(o), Mapper::Mapper104(n)) => n == o.written(addr, value),
            (Mapper::Mapper108(o), Mapper::Mapper108(n)) => n == o.written(addr, value),
            (Mapper::Mapper190(o), Mapper::Mapper190(n)) => Mapper190::wrote(o, n, addr, value),
            (Mapper::Mapper168(o), Mapper::Mapper168(n)) => Mapper168::wrote(o, n, addr, value),
            (Mapper::Mapper170(o), Mapper::Mapper170(n)) => n == o.written(addr, value),
            (Mapper::Mapper177(o), Mapper::Mapper177(n)) => n == o.written(addr, value),
            (Mapper::Mapper230(o), Mapper::Mapper230(n)) => Mapper230::wrote(o, n, addr, value),
            (Mapper::Mapper233(o), Mapper::Mapper233(n)) => Mapper233::wrote(o, n, addr, value),
            (Mapper::Mapper116(o), Mapper::Mapper116(n)) => Mapper116::wrote(o, n, addr, value),
            _ => Mapper::wrote_4(old, new, addr, value),
        }
    }

    pub open spec fn wrote_4(old: Mapper, new: Mapper, addr: u16, value: u8) -> bool {
        match (old, new) {
            (Mapper::TaitoTc0190(o), Mapper::TaitoTc0190(n)) => TaitoTc0190::wrote(o, n, addr, value),
            (Mapper::TaitoX1005(o), Mapper::TaitoX1005(n)) => n == o.written(addr, value),
            (Mapper::TaitoX1017(o), Mapper::TaitoX1017(n)) => n == o.written(addr, value),
            (Mapper::ActionEnterprises(o), Mapper::ActionEnterprises(n)) => ActionEnterprises::wrote(o, n, addr, value),
            (Mapper::AddrLatch16k(o), Mapper::AddrLatch16k(n)) => AddrLatch16k::wrote(o, n, addr, value),
            (Mapper::BandaiFcg(o), Mapper::BandaiFcg(n)) => BandaiFcg::wrote(o, n, addr, value),
            (Mapper::Mapper15(o), Mapper::Mapper15(n)) => n == o.written(addr, value),
            (Mapper::Action53(o), Mapper::Action53(n)) => n == o.written(addr, value),
            (Mapper::Mapper53(o), Mapper::Mapper53(n)) => n == o.written(addr, value),
            (Mapper::Mapper51(o), Mapper::Mapper51(n)) => n == o.written(addr, value),
            (Mapper::Mapper57(o), Mapper::Mapper57(n)) => Mapper57::wrote(o, n, addr, value),
            (Mapper::Mapper63(o), Mapper::Mapper63(n)) => Mapper63::wrote(o, n, addr, value),
            (Mapper::Mapper128(o), Mapper::Mapper128(n)) => n == o.written(addr, value),
            (Mapper::Mapper226(o), Mapper::Mapper226(n)) => Mapper226::wrote(o, n, addr, value),
            (Mapper::Mapper240(o), Mapper::Mapper240(n)) => n == o.written(addr, value),
            (Mapper::Mapper241(o), Mapper::Mapper241(n)) => n == o.written(addr, value),
            _ => Mapper::wrote_5(old, new, addr, value),
        }
    }

    pub open spec fn wrote_5(old: Mapper, new: Mapper, addr: u16, value: u8) -> bool {
        match (old, new) {
            (Mapper::Mapper244(o), Mapper::Mapper244(n)) => n == o.written(addr, value),
            (Mapper::Mapper246(o), Mapper::Mapper246(n)) => n == o.written(addr, value),
            (Mapper::Mapper236(o), Mapper::Mapper236(n)) => Mapper236::wrote(o, n, addr, value),
            (Mapper::Mapper237(o), Mapper::Mapper237(n)) => Mapper237::wrote(o, n, addr, value),
            (Mapper::Mapper96(o), Mapper::Mapper96(n)) => n == o.written(addr, value),
            (Mapper::Nina03_06(o), Mapper::Nina03_06(n)) => n == o.written(addr, value),
            (Mapper::Caltron41(o), Mapper::Caltron41(n)) => n == o.written(addr, value),
            (Mapper::ColorDreams46(o), Mapper::ColorDreams46(n)) => n == o.written(addr, value),
            (Mapper::Mapper151(o), Mapper::Mapper151(n)) => Mapper151::wrote(o, n, addr, value),
            (Mapper::JalecoJf16(o), Mapper::JalecoJf16(n)) => n == o.written(addr, value),
            (Mapper::JalecoJfxx(o), Mapper::JalecoJfxx(n)) => n == o.written(addr, value),
            (Mapper::JalecoJf13(o), Mapper::JalecoJf13(n)) => n == o.written(addr, value),
            (Mapper::UnromVariantMapper(o), Mapper::UnromVariantMapper(n)) => n == o.written(addr, value),
            (Mapper::IremG101(o), Mapper::IremG101(n)) => IremG101::wrote(o, n, addr, value),
            (Mapper::IremLrog017(o), Mapper::IremLrog017(n)) => IremLrog017::wrote(o, n, addr, value),
            _ => Mapper::wrote_6(old, new, addr, value),
        }
    }

    pub open spec fn wrote_6(old: Mapper, new: Mapper, addr: u16, value: u8) -> bool {
        match (old, new) {
            (Mapper::IremTamS1(o), Mapper::IremTamS1(n)) => n == o.written(addr, value),
            (Mapper::Vrc1(o), Mapper::Vrc1(n)) => Vrc1::wrote(o, n, addr, value),
            (Mapper::Mapper18(o), Mapper::Mapper18(n)) => Mapper18::wrote(o, n, addr, value),
            (Mapper::Mapper40(o), Mapper::Mapper40(n)) => n == o.written(addr, value),
            (Mapper::Mapper42(o), Mapper::Mapper42(n)) => n == o.written(addr, value),
            (Mapper::Mapper50(o), Mapper::Mapper50(n)) => n == o.written(addr, value),
            (Mapper::Mapper65(o), Mapper::Mapper65(n)) => Mapper65::wrote(o, n, addr, value),
            (Mapper::Mapper67(o), Mapper::Mapper67(n)) => Mapper67::wrote(o, n, addr, value),
            (Mapper::Mapper73(o), Mapper::Mapper73(n)) => n == o.written(addr, value),
            (Mapper::Mapper117(o), Mapper::Mapper117(n)) => Mapper117::wrote(o, n, addr, value),
            (Mapper::Mapper175(o), Mapper::Mapper175(n)) => n == o.written(addr, value),
            (Mapper::Mapper234(o), Mapper::Mapper234(n)) => Mapper234::wrote(o, n, addr, value),
            (Mapper::Mapper83(o), Mapper::Mapper83(n)) => Mapper83::wrote(o, n, addr, value),
            (Mapper::Mapper183(o), Mapper::Mapper183(n)) => Mapper183::wrote(o, n, addr, value),
            (Mapper::Mapper212(o), Mapper::Mapper212(n)) => Mapper212::wrote(o, n, addr, value),
            _ => Mapper::wrote_7(old, new, addr, value),
        }
    }

    pub open spec fn wrote_7(old: Mapper, new: Mapper, addr: u16, value: u8) -> bool {
        match (old, new) {
            (Mapper::Mapper222(o), Mapper::Mapper222(n)) => Mapper222::wrote(o, n, addr, value),
            (Mapper::Mapper235(o), Mapper::Mapper235(n)) => n == o.written(addr, value),
            (Mapper::Mapper272(o), Mapper::Mapper272(n)) => Mapper272::wrote(o, n, addr, value),
            (Mapper::Mapper330(o), Mapper::Mapper330(n)) => Mapper330::wrote(o, n, addr, value),
            (Mapper::Mapper91(o), Mapper::Mapper91(n)) => n == o.written(addr, value),
            (Mapper::JyAsic(o), Mapper::JyAsic(n)) => JyAsic::wrote(o, n, addr, value),
            _ => new == old,
        }
    }

    /// A CPU write to $8000-$FFFF.
    pub fn write_register(&mut self, addr: u16, value: u8)
        requires old(self).wf(), addr >= 0x8000,
        ensures Mapper::wrote(*old(self), *final(self), addr, value), final(self).wf(),
    {
        match self {
            Mapper::Nrom(m) => m.write_register(addr, value),
            Mapper::Unrom(m) => m.write_register(addr, value),
            Mapper::Cnrom(m) => m.write_register(addr, value),
            Mapper::Axrom(m) => m.write_register(addr, value),
            Mapper::ColorDreams(m) => m.write_register(addr, value),
            Mapper::Gxrom(m) => m.write_register(addr, value),
            Mapper::Codemasters(m) => m.write_register(addr, value),
            Mapper::Bf9096(m) => m.write_register(addr, value),
            Mapper::Cprom(m) => m.write_register(addr, value),
            Mapper::Bandai74161(m) => m.write_register(addr, value),
            Mapper::Mapper36(m) => m.write_register(addr, value),
            Mapper::Mapper81(m) => m.write_register(addr, value),
            Mapper::Mapper8(m) => m.write_register(addr, value),
            Mapper::Mapper99(m) => m.write_register(addr, value),
            Mapper::Mapper29(m) => m.write_register(addr, value),
            Mapper::UnlPci556(m) => m.write_register(addr, value),
            _ => self.write_register_1(addr, value),
        }
    }

    fn write_register_1(&mut self, addr: u16, value: u8)
        requires old(self).wf(), addr >= 0x8000,
        ensures Mapper::wrote_1(*old(self), *final(self), addr, value), final(self).wf(),
    {
        match self {
            Mapper::Mapper72(m) => m.write_register(addr, value),
            Mapper::Mapper122(m) => m.write_register(addr, value),
            Mapper::Mapper79(m) => m.write_register(addr, value),
            Mapper::Mapper107(m) => m.write_register(addr, value),
            Mapper::Mapper92(m) => m.write_register(addr, value),
            Mapper::JalecoJf11_14(m) => m.write_register(addr, value),
            Mapper::Mapper203(m) => m.write_register(addr, value),
            Mapper::Mapper185(m) => m.write_register(addr, value),
            Mapper::Mapper188(m) => m.write_register(addr, value),
            Mapper::Bnrom(m) => m.write_register(addr, value),
            Mapper::Nina01(m) => m.write_register(addr, value),
            Mapper::Sachen133(m) => m.write_register(addr, value),
            Mapper::SachenSa0161m(m) => m.write_register(addr, value),
            _ => self.write_register_2(addr, value),
        }
    }

    fn write_register_2(&mut self, addr: u16, value: u8)
        requires old(self).wf(), addr >= 0x8000,
        ensures Mapper::wrote_2(*old(self), *final(self), addr, value), final(self).wf(),
    {
        match self {
            Mapper::Sachen149(m) => m.write_register(addr, value),
            Mapper::Sachen8259(m) => m.write_register(addr, value),
            Mapper::Sachen74Ls374N(m) => m.write_register(addr, value),
            Mapper::Sunsoft4(m) => m.write_register(addr, value),
            Mapper::Sunsoft184(m) => m.write_register(addr, value),
            Mapper::Sunsoft89(m) => m.write_register(addr, value),
            Mapper::Mapper271(m) => m.write_register(addr, value),
            Mapper::Mapper285(m) => m.write_register(addr, value),
            Mapper::Mapper310(m) => m.write_register(addr, value),
            Mapper::Mapper319(m) => m.write_register(addr, value),
            Mapper::Mapper326(m) => m.write_register(addr, value),
            Mapper::Mapper156(m) => m.write_register(addr, value),
            Mapper::Subor166(m) => m.write_register(addr, value),
            Mapper::NanjingMapper(m) => m.write_register(addr, value),
            Mapper::Ntdec112(m) => m.write_register(addr, value),
            Mapper::Tf1201(m) => m.write_register(addr, value),
            _ => self.write_register_3(addr, value),
        }
    }

    fn write_register_3(&mut self, addr: u16, value: u8)
        requires old(self).wf(), addr >= 0x8000,
        ensures Mapper::wrote_3(*old(self), *final(self), addr, value), final(self).wf(),
    {
        match self {
            Mapper::TxcMapper(m) => m.write_register(addr, value),
            Mapper::Namco118(m) => m.write_register(addr, value),
            Mapper::Namco108Mapper95(m) => m.write_register(addr, value),
            Mapper::Namco108Mapper206(m) => m.write_register(addr, value),
            Mapper::Namco108Mapper154(m) => m.write_register(addr, value),
            Mapper::Mapper103(m) => m.write_register(addr, value),
            Mapper::Mapper120(m) => m.write_register(addr, value),
            Mapper::Mapper104(m) => m.write_register(addr, value),
            Mapper::Mapper108(m) => m.write_register(addr, value),
            Mapper::Mapper190(m) => m.write_register(addr, value),
            Mapper::Mapper168(m) => m.write_register(addr, value),
            Mapper::Mapper170(m) => m.write_register(addr, value),
            Mapper::Mapper177(m) => m.write_register(addr, value),
            Mapper::Mapper230(m) => m.write_register(addr, value),
            Mapper::Mapper233(m) => m.write_register(addr, value),
            Mapper::Mapper116(m) => m.write_register(addr, value),
            _ => self.write_register_4(addr, value),
        }
    }

    fn write_register_4(&mut self, addr: u16, value: u8)
        requires old(self).wf(), addr >= 0x8000,
        ensures Mapper::wrote_4(*old(self), *final(self), addr, value), final(self).wf(),
    {
        match self {
            Mapper::TaitoTc0190(m) => m.write_register(addr, value),
            Mapper::TaitoX1005(m) => m.write_register(addr, value),
            Mapper::TaitoX1017(m) => m.write_register(addr, value),
            Mapper::ActionEnterprises(m) => m.write_register(addr, value),
            Mapper::AddrLatch16k(m) => m.write_register(addr, value),
            Mapper::BandaiFcg(m) => m.write_register(addr, value),
            Mapper::Mapper15(m) => m.write_register(addr, value),
            Mapper::Action53(m) => m.write_register(addr, value),
            Mapper::Mapper53(m) => m.write_register(addr, value),
            Mapper::Mapper51(m) => m.write_register(addr, value),
            Mapper::Mapper57(m) => m.write_register(addr, value),
            Mapper::Mapper63(m) => m.write_register(addr, value),
            Mapper::Mapper128(m) => m.write_register(addr, value),
            Mapper::Mapper226(m) => m.write_register(addr, value),
            Mapper::Mapper240(m) => m.write_register(addr, value),
            Mapper::Mapper241(m) => m.write_register(addr, value),
            _ => self.write_register_5(addr, value),
        }
    }

    fn write_register_5(&mut self, addr: u16, value: u8)
        requires old(self).wf(), addr >= 0x8000,
        ensures Mapper::wrote_5(*old(self), *final(self), addr, value), final(self).wf(),
    {
        match self {
            Mapper::Mapper244(m) => m.write_register(addr, value),
            Mapper::Mapper246(m) => m.write_register(addr, value),
            Mapper::Mapper236(m) => m.write_register(addr, value),
            Mapper::Mapper237(m) => m.write_register(addr, value),
            Mapper::Mapper96(m) => m.write_register(addr, value),
            Mapper::Nina03_06(m) => m.write_register(addr, value),
            Mapper::Caltron41(m) => m.write_register(addr, value),
            Mapper::ColorDreams46(m) => m.write_register(addr, value),
            Mapper::Mapper151(m) => m.write_register(addr, value),
            Mapper::JalecoJf16(m) => m.write_register(addr, value),
            Mapper::JalecoJfxx(m) => m.write_register(addr, value),
            Mapper::JalecoJf13(m) => m.write_register(addr, value),
            Mapper::UnromVariantMapper(m) => m.write_register(addr, value),
            Mapper::IremG101(m) => m.write_register(addr, value),
            Mapper::IremLrog017(m) => m.write_register(addr, value),
            _ => self.write_register_6(addr, value),
        }
    }

    fn write_register_6(&mut self, addr: u16, value: u8)
        requires old(self).wf(), addr >= 0x8000,
        ensures Mapper::wrote_6(*old(self), *final(self), addr, value), final(self).wf(),
    {
        match self {
            Mapper::IremTamS1(m) => m.write_register(addr, value),
            Mapper::Vrc1(m) => m.write_register(addr, value),
            Mapper::Mapper18(m) => m.write_register(addr, value),
            Mapper::Mapper40(m) => m.write_register(addr, value),
            Mapper::Mapper42(m) => m.write_register(addr, value),
            Mapper::Mapper50(m) => m.write_register(addr, value),
            Mapper::Mapper65(m) => m.write_register(addr, value),
            Mapper::Mapper67(m) => m.write_register(addr, value),
            Mapper::Mapper73(m) => m.write_register(addr, value),
            Mapper::Mapper117(m) => m.write_register(addr, value),
            Mapper::Mapper175(m) => m.write_register(addr, value),
            Mapper::Mapper234(m) => m.write_register(addr, value),
            Mapper::Mapper83(m) => m.write_register(addr, value),
            Mapper::Mapper183(m) => m.write_register(addr, value),
            Mapper::Mapper212(m) => m.write_register(addr, value),
            _ => self.write_register_7(addr, value),
        }
    }

    fn write_register_7(&mut self, addr: u16, value: u8)
        requires old(self).wf(), addr >= 0x8000,
        ensures Mapper::wrote_7(*old(self), *final(self), addr, value), final(self).wf(),
    {
        match self {
            Mapper::Mapper222(m) => m.write_register(addr, value),
            Mapper::Mapper235(m) => m.write_register(addr, value),
            Mapper::Mapper272(m) => m.write_register(addr, value),
            Mapper::Mapper330(m) => m.write_register(addr, value),
            Mapper::Mapper91(m) => m.write_register(addr, value),
            Mapper::JyAsic(m) => m.write_register(addr, value),
            _ => {},
        }
    }

    pub open spec fn claims_low_spec(&self, addr: u16) -> bool {
        match self {
            Mapper::Nrom(m) => false,
            Mapper::Unrom(m) => false,
            Mapper::Cnrom(m) => false,
            Mapper::Axrom(m) => false,
            Mapper::ColorDreams(m) => false,
            Mapper::Gxrom(m) => false,
            Mapper::Codemasters(m) => false,
            Mapper::Bf9096(m) => false,
            Mapper::Cprom(m) => false,
            Mapper::Bandai74161(m) => false,
            Mapper::Mapper36(m) => false,
            Mapper::Mapper81(m) => false,
            Mapper::Mapper8(m) => false,
            Mapper::Mapper99(m) => false,
            Mapper::Mapper29(m) => false,
            Mapper::UnlPci556(m) => UnlPci556::claims_low(addr),
            _ => self.claims_low_spec_1(addr),
        }
    }

    pub open spec fn claims_low_spec_1(&self, addr: u16) -> bool {
        match self {
            Mapper::Mapper72(m) => Mapper72::claims_low(addr),
            Mapper::Mapper122(m) => false,
            Mapper::Mapper79(m) => false,
            Mapper::Mapper107(m) => false,
            Mapper::Mapper92(m) => false,
            Mapper::JalecoJf11_14(m) => JalecoJf11_14::claims_low(addr),
            Mapper::Mapper203(m) => false,
            Mapper::Mapper185(m) => false,
            Mapper::Mapper188(m) => false,
            Mapper::Mapper193(m) => Mapper193::claims_low(addr),
            Mapper::Mapper186(m) => Mapper186::claims_low(addr),
            Mapper::Mapper218(m) => false,
            Mapper::Bnrom(m) => false,
            Mapper::Nina01(m) => Nina01::claims_low(addr),
            Mapper::Sachen133(m) => Sachen133::claims_low(addr),
            Mapper::SachenSa0161m(m) => m.claims_low(addr),
            _ => self.claims_low_spec_2(addr),
        }
    }

    pub open spec fn claims_low_spec_2(&self, addr: u16) -> bool {
        match self {
            Mapper::Sachen149(m) => false,
            Mapper::Sachen8259(m) => Sachen8259::claims_low(addr),
            Mapper::Sachen74Ls374N(m) => Sachen74Ls374N::claims_low(addr),
            Mapper::Sunsoft4(m) => false,
            Mapper::Sunsoft184(m) => Sunsoft184::claims_low(addr),
            Mapper::Sunsoft89(m) => false,
            Mapper::Mapper271(m) => false,
            Mapper::Mapper285(m) => false,
            Mapper::Mapper310(m) => false,
            Mapper::Mapper319(m) => Mapper319::claims_low(addr),
            Mapper::Mapper326(m) => false,
            Mapper::Mapper156(m) => false,
            Mapper::Subor166(m) => false,
            Mapper::NanjingMapper(m) => false,
            Mapper::Ntdec112(m) => false,
            Mapper::Tf1201(m) => false,
            _ => self.claims_low_spec_3(addr),
        }
    }

    pub open spec fn claims_low_spec_3(&self, addr: u16) -> bool {
        match self {
            Mapper::TxcMapper(m) => false,
            Mapper::Namco118(m) => false,
            Mapper::Namco108Mapper95(m) => false,
            Mapper::Namco108Mapper206(m) => false,
            Mapper::Namco108Mapper154(m) => false,
            Mapper::Mapper103(m) => Mapper103::claims_low(addr),
            Mapper::Mapper120(m) => false,
            Mapper::Mapper104(m) => false,
            Mapper::Mapper108(m) => false,
            Mapper::Mapper190(m) => false,
            Mapper::Mapper168(m) => false,
            Mapper::Mapper170(m) => Mapper170::claims_low(addr),
            Mapper::Mapper177(m) => false,
            Mapper::Mapper230(m) => false,
            Mapper::Mapper233(m) => false,
            Mapper::Mapper116(m) => Mapper116::claims_low(addr),
            _ => self.claims_low_spec_4(addr),
        }
    }

    pub open spec fn claims_low_spec_4(&self, addr: u16) -> bool {
        match self {
            Mapper::TaitoTc0190(m) => false,
            Mapper::TaitoX1005(m) => TaitoX1005::claims_low(addr),
            Mapper::TaitoX1017(m) => TaitoX1017::claims_low(addr),
            Mapper::ActionEnterprises(m) => false,
            Mapper::AddrLatch16k(m) => false,
            Mapper::BandaiFcg(m) => m.claims_low(addr),
            Mapper::Mapper15(m) => false,
            Mapper::Action53(m) => false,
            Mapper::Mapper53(m) => Mapper53::claims_low(addr),
            Mapper::Mapper51(m) => Mapper51::claims_low(addr),
            Mapper::Mapper57(m) => false,
            Mapper::Mapper63(m) => false,
            Mapper::Mapper128(m) => false,
            Mapper::Mapper226(m) => false,
            Mapper::Mapper240(m) => false,
            Mapper::Mapper241(m) => false,
            _ => self.claims_low_spec_5(addr),
        }
    }

    pub open spec fn claims_low_spec_5(&self, addr: u16) -> bool {
        match self {
            Mapper::Mapper244(m) => false,
            Mapper::Mapper246(m) => Mapper246::claims_low(addr),
            Mapper::Mapper236(m) => false,
            Mapper::Mapper237(m) => false,
            Mapper::Mapper31(m) => false,
            Mapper::Mapper96(m) => false,
            Mapper::Nina03_06(m) => false,
            Mapper::Caltron41(m) => Caltron41::claims_low(addr),
            Mapper::ColorDreams46(m) => ColorDreams46::claims_low(addr),
            Mapper::Mapper151(m) => false,
            Mapper::JalecoJf16(m) => false,
            Mapper::JalecoJfxx(m) => JalecoJfxx::claims_low(addr),
            Mapper::JalecoJf13(m) => JalecoJf13::claims_low(addr),
            Mapper::UnromVariantMapper(m) => false,
            Mapper::IremG101(m) => false,
            Mapper::IremLrog017(m) => false,
            _ => self.claims_low_spec_6(addr),
        }
    }

    pub open spec fn claims_low_spec_6(&self, addr: u16) -> bool {
        match self {
            Mapper::IremTamS1(m) => false,
            Mapper::Vrc1(m) => false,
            Mapper::Mapper18(m) => false,
            Mapper::Mapper40(m) => false,
            Mapper::Mapper42(m) => false,
            Mapper::Mapper50(m) => false,
            Mapper::Mapper65(m) => false,
            Mapper::Mapper67(m) => false,
            Mapper::Mapper73(m) => false,
            Mapper::Mapper117(m) => false,
            Mapper::Mapper175(m) => false,
            Mapper::Mapper234(m) => false,
            Mapper::Mapper60(m) => false,
            Mapper::Mapper83(m) => false,
            Mapper::Mapper183(m) => Mapper183::claims_low(addr),
            Mapper::Mapper212(m) => false,
            _ => self.claims_low_spec_7(addr),
        }
    }

    pub open spec fn claims_low_spec_7(&self, addr: u16) -> bool {
        match self {
            Mapper::Mapper222(m) => false,
            Mapper::Mapper235(m) => false,
            Mapper::Mapper272(m) => false,
            Mapper::Mapper330(m) => false,
            Mapper::Mapper91(m) => Mapper91::claims_low(addr),
            Mapper::JyAsic(m) => false,
            _ => false,
        }
    }

    pub open spec fn low_wrote(old: Mapper, new: Mapper, addr: u16, value: u8) -> bool {
        match (old, new) {
            (Mapper::UnlPci556(o), Mapper::UnlPci556(n)) => n == o.low_written(addr, value),
            _ => Mapper::low_wrote_1(old, new, addr, value),
        }
    }

    pub open spec fn low_wrote_1(old: Mapper, new: Mapper, addr: u16, value: u8) -> bool {
        match (old, new) {
            (Mapper::Mapper72(o), Mapper::Mapper72(n)) => n == o.low_written(addr, value),
            (Mapper::JalecoJf11_14(o), Mapper::JalecoJf11_14(n)) => n == o.low_written(addr, value),
            (Mapper::Mapper193(o), Mapper::Mapper193(n)) => Mapper193::low_wrote(o, n, addr, value),
            (Mapper::Mapper186(o), Mapper::Mapper186(n)) => Mapper186::low_wrote(o, n, addr, value),
            (Mapper::Nina01(o), Mapper::Nina01(n)) => n == o.low_written(addr, value),
            (Mapper::Sachen133(o), Mapper::Sachen133(n)) => n == o.low_written(addr, value),
            (Mapper::SachenSa0161m(o), Mapper::SachenSa0161m(n)) => n == o.low_written(addr, value),
            _ => Mapper::low_wrote_2(old, new, addr, value),
        }
    }

    pub open spec fn low_wrote_2(old: Mapper, new: Mapper, addr: u16, value: u8) -> bool {
        match (old, new) {
            (Mapper::Sachen8259(o), Mapper::Sachen8259(n)) => Sachen8259::low_wrote(o, n, addr, value),
            (Mapper::Sachen74Ls374N(o), Mapper::Sachen74Ls374N(n)) => Sachen74Ls374N::low_wrote(o, n, addr, value),
            (Mapper::Sunsoft184(o), Mapper::Sunsoft184(n)) => n == o.low_written(addr, value),
            (Mapper::Mapper319(o), Mapper::Mapper319(n)) => Mapper319::low_wrote(o, n, addr, value),
            _ => Mapper::low_wrote_3(old, new, addr, value),
        }
    }

    pub open spec fn low_wrote_3(old: Mapper, new: Mapper, addr: u16, value: u8) -> bool {
        match (old, new) {
            (Mapper::Mapper103(o), Mapper::Mapper103(n)) => n == o.low_written(addr, value),
            (Mapper::Mapper170(o), Mapper::Mapper170(n)) => n == o.low_written(addr, value),
            (Mapper::Mapper116(o), Mapper::Mapper116(n)) => Mapper116::low_wrote(o, n, addr, value),
            _ => Mapper::low_wrote_4(old, new, addr, value),
        }
    }

    pub open spec fn low_wrote_4(old: Mapper, new: Mapper, addr: u16, value: u8) -> bool {
        match (old, new) {
            (Mapper::TaitoX1005(o), Mapper::TaitoX1005(n)) => TaitoX1005::low_wrote(o, n, addr, value),
            (Mapper::TaitoX1017(o), Mapper::TaitoX1017(n)) => TaitoX1017::low_wrote(o, n, addr, value),
            (Mapper::BandaiFcg(o), Mapper::BandaiFcg(n)) => BandaiFcg::low_wrote(o, n, addr, value),
            (Mapper::Mapper53(o), Mapper::Mapper53(n)) => n == o.low_written(addr, value),
            (Mapper::Mapper51(o), Mapper::Mapper51(n)) => n == o.low_written(addr, value),
            _ => Mapper::low_wrote_5(old, new, addr, value),
        }
    }

    pub open spec fn low_wrote_5(old: Mapper, new: Mapper, addr: u16, value: u8) -> bool {
        match (old, new) {
            (Mapper::Mapper246(o), Mapper::Mapper246(n)) => Mapper246::low_wrote(o, n, addr, value),
            (Mapper::Caltron41(o), Mapper::Caltron41(n)) => n == o.low_written(addr, value),
            (Mapper::ColorDreams46(o), Mapper::ColorDreams46(n)) => n == o.low_written(addr, value),
            (Mapper::JalecoJfxx(o), Mapper::JalecoJfxx(n)) => n == o.low_written(addr, value),
            (Mapper::JalecoJf13(o), Mapper::JalecoJf13(n)) => n == o.low_written(addr, value),
            _ => Mapper::low_wrote_6(old, new, addr, value),
        }
    }

    pub open spec fn low_wrote_6(old: Mapper, new: Mapper, addr: u16, value: u8) -> bool {
        match (old, new) {
            (Mapper::Mapper183(o), Mapper::Mapper183(n)) => Mapper183::low_wrote(o, n, addr, value),
            _ => Mapper::low_wrote_7(old, new, addr, value),
        }
    }

    pub open spec fn low_wrote_7(old: Mapper, new: Mapper, addr: u16, value: u8) -> bool {
        match (old, new) {
            (Mapper::Mapper91(o), Mapper::Mapper91(n)) => Mapper91::low_wrote(o, n, addr, value),
            _ => new == old,
        }
    }

    /// A CPU write to $6000-$7FFF; true when the board claims it as a register.
    pub fn write_low_register(&mut self, addr: u16, value: u8) -> (r: bool)
        requires old(self).wf(),
        ensures Mapper::low_wrote(*old(self), *final(self), addr, value), final(self).wf(), r == old(self).claims_low_spec(addr),
    {
        match self {
            Mapper::UnlPci556(m) => m.write_low_register(addr, value),
            _ => self.write_low_register_1(addr, value),
        }
    }

    fn write_low_register_1(&mut self, addr: u16, value: u8) -> (r: bool)
        requires old(self).wf(),
        ensures Mapper::low_wrote_1(*old(self), *final(self), addr, value), final(self).wf(), r == old(self).claims_low_spec_1(addr),
    {
        match self {
            Mapper::Mapper72(m) => m.write_low_register(addr, value),
            Mapper::JalecoJf11_14(m) => m.write_low_register(addr, value),
            Mapper::Mapper193(m) => m.write_low_register(addr, value),
            Mapper::Mapper186(m) => m.write_low_register(addr, value),
            Mapper::Nina01(m) => m.write_low_register(addr, value),
            Mapper::Sachen133(m) => m.write_low_register(addr, value),
            Mapper::SachenSa0161m(m) => m.write_low_register(addr, value),
            _ => self.write_low_register_2(addr, value),
        }
    }

    fn write_low_register_2(&mut self, addr: u16, value: u8) -> (r: bool)
        requires old(self).wf(),
        ensures Mapper::low_wrote_2(*old(self), *final(self), addr, value), final(self).wf(), r == old(self).claims_low_spec_2(addr),
    {
        match self {
            Mapper::Sachen8259(m) => m.write_low_register(addr, value),
            Mapper::Sachen74Ls374N(m) => m.write_low_register(addr, value),
            Mapper::Sunsoft184(m) => m.write_low_register(addr, value),
            Mapper::Mapper319(m) => m.write_low_register(addr, value),
            _ => self.write_low_register_3(addr, value),
        }
    }

    fn write_low_register_3(&mut self, addr: u16, value: u8) -> (r: bool)
        requires old(self).wf(),
        ensures Mapper::low_wrote_3(*old(self), *final(self), addr, value), final(self).wf(), r == old(self).claims_low_spec_3(addr),
    {
        match self {
            Mapper::Mapper103(m) => m.write_low_register(addr, value),
            Mapper::Mapper170(m) => m.write_low_register(addr, value),
            Mapper::Mapper116(m) => m.write_low_register(addr, value),
            _ => self.write_low_register_4(addr, value),
        }
    }

    fn write_low_register_4(&mut self, addr: u16, value: u8) -> (r: bool)
        requires old(self).wf(),
        ensures Mapper::low_wrote_4(*old(self), *final(self), addr, value), final(self).wf(), r == old(self).claims_low_spec_4(addr),
    {
        match self {
            Mapper::TaitoX1005(m) => m.write_low_register(addr, value),
            Mapper::TaitoX1017(m) => m.write_low_register(addr, value),
            Mapper::BandaiFcg(m) => m.write_low_register(addr, value),
            Mapper::Mapper53(m) => m.write_low_register(addr, value),
            Mapper::Mapper51(m) => m.write_low_register(addr, value),
            _ => self.write_low_register_5(addr, value),
        }
    }

    fn write_low_register_5(&mut self, addr: u16, value: u8) -> (r: bool)
        requires old(self).wf(),
        ensures Mapper::low_wrote_5(*old(self), *final(self), addr, value), final(self).wf(), r == old(self).claims_low_spec_5(addr),
    {
        match self {
            Mapper::Mapper246(m) => m.write_low_register(addr, value),
            Mapper::Caltron41(m) => m.write_low_register(addr, value),
            Mapper::ColorDreams46(m) => m.write_low_register(addr, value),
            Mapper::JalecoJfxx(m) => m.write_low_register(addr, value),
            Mapper::JalecoJf13(m) => m.write_low_register(addr, value),
            _ => self.write_low_register_6(addr, value),
        }
    }

    fn write_low_register_6(&mut self, addr: u16, value: u8) -> (r: bool)
        requires old(self).wf(),
        ensures Mapper::low_wrote_6(*old(self), *final(self), addr, value), final(self).wf(), r == old(self).claims_low_spec_6(addr),
    {
        match self {
            Mapper::Mapper183(m) => m.write_low_register(addr, value),
            _ => self.write_low_register_7(addr, value),
        }
    }

    fn write_low_register_7(&mut self, addr: u16, value: u8) -> (r: bool)
        requires old(self).wf(),
        ensures Mapper::low_wrote_7(*old(self), *final(self), addr, value), final(self).wf(), r == old(self).claims_low_spec_7(addr),
    {
        match self {
            Mapper::Mapper91(m) => m.write_low_register(addr, value),
            _ => false,
        }
    }

    pub open spec fn expansion_wrote(old: Mapper, new: Mapper, addr: u16, value: u8) -> bool {
        match (old, new) {
            _ => Mapper::expansion_wrote_1(old, new, addr, value),
        }
    }

    pub open spec fn expansion_wrote_1(old: Mapper, new: Mapper, addr: u16, value: u8) -> bool {
        match (old, new) {
            (Mapper::Mapper79(o), Mapper::Mapper79(n)) => n == o.expansion_written(addr, value),
            (Mapper::Mapper186(o), Mapper::Mapper186(n)) => Mapper186::expansion_wrote(o, n, addr, value),
            (Mapper::Sachen133(o), Mapper::Sachen133(n)) => n == o.expansion_written(addr, value),
            (Mapper::SachenSa0161m(o), Mapper::SachenSa0161m(n)) => n == o.expansion_written(addr, value),
            _ => Mapper::expansion_wrote_2(old, new, addr, value),
        }
    }

    pub open spec fn expansion_wrote_2(old: Mapper, new: Mapper, addr: u16, value: u8) -> bool {
        match (old, new) {
            (Mapper::Sachen8259(o), Mapper::Sachen8259(n)) => Sachen8259::expansion_wrote(o, n, addr, value),
            (Mapper::Sachen74Ls374N(o), Mapper::Sachen74Ls374N(n)) => Sachen74Ls374N::expansion_wrote(o, n, addr, value),
            (Mapper::NanjingMapper(o), Mapper::NanjingMapper(n)) => NanjingMapper::expansion_wrote(o, n, addr, value),
            (Mapper::Ntdec112(o), Mapper::Ntdec112(n)) => Ntdec112::expansion_wrote(o, n, addr, value),
            _ => Mapper::expansion_wrote_3(old, new, addr, value),
        }
    }

    pub open spec fn expansion_wrote_3(old: Mapper, new: Mapper, addr: u16, value: u8) -> bool {
        match (old, new) {
            (Mapper::TxcMapper(o), Mapper::TxcMapper(n)) => n == o.expansion_written(addr, value),
            (Mapper::Mapper120(o), Mapper::Mapper120(n)) => n == o.expansion_written(addr, value),
            (Mapper::Mapper116(o), Mapper::Mapper116(n)) => Mapper116::expansion_wrote(o, n, addr, value),
            _ => Mapper::expansion_wrote_4(old, new, addr, value),
        }
    }

    pub open spec fn expansion_wrote_4(old: Mapper, new: Mapper, addr: u16, value: u8) -> bool {
        match (old, new) {
            (Mapper::ActionEnterprises(o), Mapper::ActionEnterprises(n)) => ActionEnterprises::expansion_wrote(o, n, addr, value),
            (Mapper::Action53(o), Mapper::Action53(n)) => n == o.expansion_written(addr, value),
            (Mapper::Mapper240(o), Mapper::Mapper240(n)) => n == o.expansion_written(addr, value),
            _ => Mapper::expansion_wrote_5(old, new, addr, value),
        }
    }

    pub open spec fn expansion_wrote_5(old: Mapper, new: Mapper, addr: u16, value: u8) -> bool {
        match (old, new) {
            (Mapper::Mapper31(o), Mapper::Mapper31(n)) => Mapper31::expansion_wrote(o, n, addr, value),
            (Mapper::Nina03_06(o), Mapper::Nina03_06(n)) => n == o.expansion_written(addr, value),
            _ => Mapper::expansion_wrote_6(old, new, addr, value),
        }
    }

    pub open spec fn expansion_wrote_6(old: Mapper, new: Mapper, addr: u16, value: u8) -> bool {
        match (old, new) {
            (Mapper::Mapper50(o), Mapper::Mapper50(n)) => n == o.expansion_written(addr, value),
            (Mapper::Mapper83(o), Mapper::Mapper83(n)) => Mapper83::expansion_wrote(o, n, addr, value),
            _ => Mapper::expansion_wrote_7(old, new, addr, value),
        }
    }

    pub open spec fn expansion_wrote_7(old: Mapper, new: Mapper, addr: u16, value: u8) -> bool {
        match (old, new) {
            (Mapper::JyAsic(o), Mapper::JyAsic(n)) => JyAsic::expansion_wrote(o, n, addr, value),
            _ => new == old,
        }
    }

    /// A CPU write to $4018-$5FFF.
    pub fn write_expansion(&mut self, addr: u16, value: u8)
        requires old(self).wf(),
        ensures Mapper::expansion_wrote(*old(self), *final(self), addr, value), final(self).wf(),
    {
        match self {
            _ => self.write_expansion_1(addr, value),
        }
    }

    fn write_expansion_1(&mut self, addr: u16, value: u8)
        requires old(self).wf(),
        ensures Mapper::expansion_wrote_1(*old(self), *final(self), addr, value), final(self).wf(),
    {
        match self {
            Mapper::Mapper79(m) => m.write_expansion(addr, value),
            Mapper::Mapper186(m) => m.write_expansion(addr, value),
            Mapper::Sachen133(m) => m.write_expansion(addr, value),
            Mapper::SachenSa0161m(m) => m.write_expansion(addr, value),
            _ => self.write_expansion_2(addr, value),
        }
    }

    fn write_expansion_2(&mut self, addr: u16, value: u8)
        requires old(self).wf(),
        ensures Mapper::expansion_wrote_2(*old(self), *final(self), addr, value), final(self).wf(),
    {
        match self {
            Mapper::Sachen8259(m) => m.write_expansion(addr, value),
            Mapper::Sachen74Ls374N(m) => m.write_expansion(addr, value),
            Mapper::NanjingMapper(m) => m.write_expansion(addr, value),
            Mapper::Ntdec112(m) => m.write_expansion(addr, value),
            _ => self.write_expansion_3(addr, value),
        }
    }

    fn write_expansion_3(&mut self, addr: u16, value: u8)
        requires old(self).wf(),
        ensures Mapper::expansion_wrote_3(*old(self), *final(self), addr, value), final(self).wf(),
    {
        match self {
            Mapper::TxcMapper(m) => m.write_expansion(addr, value),
            Mapper::Mapper120(m) => m.write_expansion(addr, value),
            Mapper::Mapper116(m) => m.write_expansion(addr, value),
            _ => self.write_expansion_4(addr, value),
        }
    }

    fn write_expansion_4(&mut self, addr: u16, value: u8)
        requires old(self).wf(),
        ensures Mapper::expansion_wrote_4(*old(self), *final(self), addr, value), final(self).wf(),
    {
        match self {
            Mapper::ActionEnterprises(m) => m.write_expansion(addr, value),
            Mapper::Action53(m) => m.write_expansion(addr, value),
            Mapper::Mapper240(m) => m.write_expansion(addr, value),
            _ => self.write_expansion_5(addr, value),
        }
    }

    fn write_expansion_5(&mut self, addr: u16, value: u8)
        requires old(self).wf(),
        ensures Mapper::expansion_wrote_5(*old(self), *final(self), addr, value), final(self).wf(),
    {
        match self {
            Mapper::Mapper31(m) => m.write_expansion(addr, value),
            Mapper::Nina03_06(m) => m.write_expansion(addr, value),
            _ => self.write_expansion_6(addr, value),
        }
    }

    fn write_expansion_6(&mut self, addr: u16, value: u8)
        requires old(self).wf(),
        ensures Mapper::expansion_wrote_6(*old(self), *final(self), addr, value), final(self).wf(),
    {
        match self {
            Mapper::Mapper50(m) => m.write_expansion(addr, value),
            Mapper::Mapper83(m) => m.write_expansion(addr, value),
            _ => self.write_expansion_7(addr, value),
        }
    }

    fn write_expansion_7(&mut self, addr: u16, value: u8)
        requires old(self).wf(),
        ensures Mapper::expansion_wrote_7(*old(self), *final(self), addr, value), final(self).wf(),
    {
        match self {
            Mapper::JyAsic(m) => m.write_expansion(addr, value),
            _ => {},
        }
    }

    pub open spec fn claims_chr_write_spec(&self, addr: u16) -> bool {
        match self {
            Mapper::Nrom(m) => false,
            Mapper::Unrom(m) => false,
            Mapper::Cnrom(m) => false,
            Mapper::Axrom(m) => false,
            Mapper::ColorDreams(m) => false,
            Mapper::Gxrom(m) => false,
            Mapper::Codemasters(m) => false,
            Mapper::Bf9096(m) => false,
            Mapper::Cprom(m) => false,
            Mapper::Bandai74161(m) => false,
            Mapper::Mapper36(m) => false,
            Mapper::Mapper81(m) => false,
            Mapper::Mapper8(m) => false,
            Mapper::Mapper99(m) => false,
            Mapper::Mapper29(m) => false,
            Mapper::UnlPci556(m) => false,
            _ => self.claims_chr_write_spec_1(addr),
        }
    }

    pub open spec fn claims_chr_write_spec_1(&self, addr: u16) -> bool {
        match self {
            Mapper::Mapper72(m) => false,
            Mapper::Mapper122(m) => false,
            Mapper::Mapper79(m) => false,
            Mapper::Mapper107(m) => false,
            Mapper::Mapper92(m) => false,
            Mapper::JalecoJf11_14(m) => false,
            Mapper::Mapper203(m) => false,
            Mapper::Mapper185(m) => m.claims_chr_write(addr),
            Mapper::Mapper188(m) => false,
            Mapper::Mapper193(m) => false,
            Mapper::Mapper186(m) => false,
            Mapper::Mapper218(m) => m.claims_chr_write(addr),
            Mapper::Bnrom(m) => false,
            Mapper::Nina01(m) => false,
            Mapper::Sachen133(m) => false,
            Mapper::SachenSa0161m(m) => false,
            _ => self.claims_chr_write_spec_2(addr),
        }
    }

    pub open spec fn claims_chr_write_spec_2(&self, addr: u16) -> bool {
        match self {
            Mapper::Sachen149(m) => false,
            Mapper::Sachen8259(m) => false,
            Mapper::Sachen74Ls374N(m) => false,
            Mapper::Sunsoft4(m) => false,
            Mapper::Sunsoft184(m) => false,
            Mapper::Sunsoft89(m) => false,
            Mapper::Mapper271(m) => false,
            Mapper::Mapper285(m) => false,
            Mapper::Mapper310(m) => m.claims_chr_write(addr),
            Mapper::Mapper319(m) => false,
            Mapper::Mapper326(m) => false,
            Mapper::Mapper156(m) => false,
            Mapper::Subor166(m) => false,
            Mapper::NanjingMapper(m) => false,
            Mapper::Ntdec112(m) => false,
            Mapper::Tf1201(m) => false,
            _ => self.claims_chr_write_spec_3(addr),
        }
    }

    pub open spec fn claims_chr_write_spec_3(&self, addr: u16) -> bool {
        match self {
            Mapper::TxcMapper(m) => false,
            Mapper::Namco118(m) => false,
            Mapper::Namco108Mapper95(m) => false,
            Mapper::Namco108Mapper206(m) => false,
            Mapper::Namco108Mapper154(m) => false,
            Mapper::Mapper103(m) => false,
            Mapper::Mapper120(m) => false,
            Mapper::Mapper104(m) => false,
            Mapper::Mapper108(m) => false,
            Mapper::Mapper190(m) => false,
            Mapper::Mapper168(m) => m.claims_chr_write(addr),
            Mapper::Mapper170(m) => false,
            Mapper::Mapper177(m) => false,
            Mapper::Mapper230(m) => false,
            Mapper::Mapper233(m) => false,
            Mapper::Mapper116(m) => false,
            _ => self.claims_chr_write_spec_4(addr),
        }
    }

    pub open spec fn claims_chr_write_spec_4(&self, addr: u16) -> bool {
        match self {
            Mapper::TaitoTc0190(m) => false,
            Mapper::TaitoX1005(m) => false,
            Mapper::TaitoX1017(m) => false,
            Mapper::ActionEnterprises(m) => false,
            Mapper::AddrLatch16k(m) => false,
            Mapper::BandaiFcg(m) => false,
            Mapper::Mapper15(m) => false,
            Mapper::Action53(m) => false,
            Mapper::Mapper53(m) => false,
            Mapper::Mapper51(m) => false,
            Mapper::Mapper57(m) => false,
            Mapper::Mapper63(m) => false,
            Mapper::Mapper128(m) => false,
            Mapper::Mapper226(m) => false,
            Mapper::Mapper240(m) => false,
            Mapper::Mapper241(m) => false,
            _ => self.claims_chr_write_spec_5(addr),
        }
    }

    pub open spec fn claims_chr_write_spec_5(&self, addr: u16) -> bool {
        match self {
            Mapper::Mapper244(m) => false,
            Mapper::Mapper246(m) => false,
            Mapper::Mapper236(m) => false,
            Mapper::Mapper237(m) => false,
            Mapper::Mapper31(m) => false,
            Mapper::Mapper96(m) => false,
            Mapper::Nina03_06(m) => false,
            Mapper::Caltron41(m) => false,
            Mapper::ColorDreams46(m) => false,
            Mapper::Mapper151(m) => false,
            Mapper::JalecoJf16(m) => false,
            Mapper::JalecoJfxx(m) => false,
            Mapper::JalecoJf13(m) => false,
            Mapper::UnromVariantMapper(m) => false,
            Mapper::IremG101(m) => false,
            Mapper::IremLrog017(m) => m.claims_chr_write(addr),
            _ => self.claims_chr_write_spec_6(addr),
        }
    }

    pub open spec fn claims_chr_write_spec_6(&self, addr: u16) -> bool {
        match self {
            Mapper::IremTamS1(m) => false,
            Mapper::Vrc1(m) => false,
            Mapper::Mapper18(m) => false,
            Mapper::Mapper40(m) => false,
            Mapper::Mapper42(m) => false,
            Mapper::Mapper50(m) => false,
            Mapper::Mapper65(m) => false,
            Mapper::Mapper67(m) => false,
            Mapper::Mapper73(m) => false,
            Mapper::Mapper117(m) => false,
            Mapper::Mapper175(m) => false,
            Mapper::Mapper234(m) => false,
            Mapper::Mapper60(m) => false,
            Mapper::Mapper83(m) => false,
            Mapper::Mapper183(m) => false,
            Mapper::Mapper212(m) => false,
            _ => self.claims_chr_write_spec_7(addr),
        }
    }

    pub open spec fn claims_chr_write_spec_7(&self, addr: u16) -> bool {
        match self {
            Mapper::Mapper222(m) => false,
            Mapper::Mapper235(m) => false,
            Mapper::Mapper272(m) => false,
            Mapper::Mapper330(m) => false,
            Mapper::Mapper91(m) => false,
            Mapper::JyAsic(m) => false,
            _ => false,
        }
    }

    pub open spec fn chr_wrote(old: Mapper, new: Mapper, addr: u16, value: u8) -> bool {
        match (old, new) {
            _ => Mapper::chr_wrote_1(old, new, addr, value),
        }
    }

    pub open spec fn chr_wrote_1(old: Mapper, new: Mapper, addr: u16, value: u8) -> bool {
        match (old, new) {
            (Mapper::Mapper185(o), Mapper::Mapper185(n)) => n == o.chr_written(addr, value),
            (Mapper::Mapper218(o), Mapper::Mapper218(n)) => Mapper218::chr_wrote(o, n, addr, value),
            _ => Mapper::chr_wrote_2(old, new, addr, value),
        }
    }

    pub open spec fn chr_wrote_2(old: Mapper, new: Mapper, addr: u16, value: u8) -> bool {
        match (old, new) {
            (Mapper::Mapper310(o), Mapper::Mapper310(n)) => n == o.chr_written(addr, value),
            _ => Mapper::chr_wrote_3(old, new, addr, value),
        }
    }

    pub open spec fn chr_wrote_3(old: Mapper, new: Mapper, addr: u16, value: u8) -> bool {
        match (old, new) {
            (Mapper::Mapper168(o), Mapper::Mapper168(n)) => Mapper168::chr_wrote(o, n, addr, value),
            _ => Mapper::chr_wrote_4(old, new, addr, value),
        }
    }

    pub open spec fn chr_wrote_4(old: Mapper, new: Mapper, addr: u16, value: u8) -> bool {
        match (old, new) {
            _ => Mapper::chr_wrote_5(old, new, addr, value),
        }
    }

    pub open spec fn chr_wrote_5(old: Mapper, new: Mapper, addr: u16, value: u8) -> bool {
        match (old, new) {
            (Mapper::IremLrog017(o), Mapper::IremLrog017(n)) => IremLrog017::chr_wrote(o, n, addr, value),
            _ => Mapper::chr_wrote_6(old, new, addr, value),
        }
    }

    pub open spec fn chr_wrote_6(old: Mapper, new: Mapper, addr: u16, value: u8) -> bool {
        match (old, new) {
            _ => Mapper::chr_wrote_7(old, new, addr, value),
        }
    }

    pub open spec fn chr_wrote_7(old: Mapper, new: Mapper, addr: u16, value: u8) -> bool {
        match (old, new) {
            _ => new == old,
        }
    }

    /// A PPU pattern write the board absorbs itself; true when claimed.
    pub fn chr_write(&mut self, addr: u16, value: u8) -> (r: bool)
        requires old(self).wf(),
        ensures Mapper::chr_wrote(*old(self), *final(self), addr, value), final(self).wf(), r == old(self).claims_chr_write_spec(addr),
    {
        match self {
            _ => self.chr_write_1(addr, value),
        }
    }

    fn chr_write_1(&mut self, addr: u16, value: u8) -> (r: bool)
        requires old(self).wf(),
        ensures Mapper::chr_wrote_1(*old(self), *final(self), addr, value), final(self).wf(), r == old(self).claims_chr_write_spec_1(addr),
    {
        match self {
            Mapper::Mapper185(m) => m.chr_write(addr, value),
            Mapper::Mapper218(m) => m.chr_write(addr, value),
            _ => self.chr_write_2(addr, value),
        }
    }

    fn chr_write_2(&mut self, addr: u16, value: u8) -> (r: bool)
        requires old(self).wf(),
        ensures Mapper::chr_wrote_2(*old(self), *final(self), addr, value), final(self).wf(), r == old(self).claims_chr_write_spec_2(addr),
    {
        match self {
            Mapper::Mapper310(m) => m.chr_write(addr, value),
            _ => self.chr_write_3(addr, value),
        }
    }

    fn chr_write_3(&mut self, addr: u16, value: u8) -> (r: bool)
        requires old(self).wf(),
        ensures Mapper::chr_wrote_3(*old(self), *final(self), addr, value), final(self).wf(), r == old(self).claims_chr_write_spec_3(addr),
    {
        match self {
            Mapper::Mapper168(m) => m.chr_write(addr, value),
            _ => self.chr_write_4(addr, value),
        }
    }

    fn chr_write_4(&mut self, addr: u16, value: u8) -> (r: bool)
        requires old(self).wf(),
        ensures Mapper::chr_wrote_4(*old(self), *final(self), addr, value), final(self).wf(), r == old(self).claims_chr_write_spec_4(addr),
    {
        match self {
            _ => self.chr_write_5(addr, value),
        }
    }

    fn chr_write_5(&mut self, addr: u16, value: u8) -> (r: bool)
        requires old(self).wf(),
        ensures Mapper::chr_wrote_5(*old(self), *final(self), addr, value), final(self).wf(), r == old(self).claims_chr_write_spec_5(addr),
    {
        match self {
            Mapper::IremLrog017(m) => m.chr_write(addr, value),
            _ => self.chr_write_6(addr, value),
        }
    }

    fn chr_write_6(&mut self, addr: u16, value: u8) -> (r: bool)
        requires old(self).wf(),
        ensures Mapper::chr_wrote_6(*old(self), *final(self), addr, value), final(self).wf(), r == old(self).claims_chr_write_spec_6(addr),
    {
        match self {
            _ => self.chr_write_7(addr, value),
        }
    }

    fn chr_write_7(&mut self, addr: u16, value: u8) -> (r: bool)
        requires old(self).wf(),
        ensures Mapper::chr_wrote_7(*old(self), *final(self), addr, value), final(self).wf(), r == old(self).claims_chr_write_spec_7(addr),
    {
        match self {
            _ => false,
        }
    }

    pub open spec fn was_reset(old: Mapper, new: Mapper, soft: bool) -> bool {
        match (old, new) {
            (Mapper::Mapper99(o), Mapper::Mapper99(n)) => n == o.after_reset(soft),
            _ => Mapper::was_reset_1(old, new, soft),
        }
    }

    pub open spec fn was_reset_1(old: Mapper, new: Mapper, soft: bool) -> bool {
        match (old, new) {
            _ => Mapper::was_reset_2(old, new, soft),
        }
    }

    pub open spec fn was_reset_2(old: Mapper, new: Mapper, soft: bool) -> bool {
        match (old, new) {
            (Mapper::Sachen8259(o), Mapper::Sachen8259(n)) => Sachen8259::was_reset(o, n, soft),
            (Mapper::Sachen74Ls374N(o), Mapper::Sachen74Ls374N(n)) => Sachen74Ls374N::was_reset(o, n, soft),
            (Mapper::Mapper271(o), Mapper::Mapper271(n)) => n == o.after_reset(soft),
            (Mapper::Mapper285(o), Mapper::Mapper285(n)) => n == o.after_reset(soft),
            (Mapper::Mapper310(o), Mapper::Mapper310(n)) => Mapper310::was_reset(o, n, soft),
            (Mapper::Mapper319(o), Mapper::Mapper319(n)) => Mapper319::was_reset(o, n, soft),
            (Mapper::Mapper156(o), Mapper::Mapper156(n)) => Mapper156::was_reset(o, n, soft),
            (Mapper::NanjingMapper(o), Mapper::NanjingMapper(n)) => NanjingMapper::was_reset(o, n, soft),
            (Mapper::Tf1201(o), Mapper::Tf1201(n)) => Tf1201::was_reset(o, n, soft),
            _ => Mapper::was_reset_3(old, new, soft),
        }
    }

    pub open spec fn was_reset_3(old: Mapper, new: Mapper, soft: bool) -> bool {
        match (old, new) {
            (Mapper::TxcMapper(o), Mapper::TxcMapper(n)) => n == o.after_reset(soft),
            (Mapper::Mapper104(o), Mapper::Mapper104(n)) => n == o.after_reset(soft),
            (Mapper::Mapper190(o), Mapper::Mapper190(n)) => Mapper190::was_reset(o, n, soft),
            (Mapper::Mapper168(o), Mapper::Mapper168(n)) => Mapper168::was_reset(o, n, soft),
            (Mapper::Mapper170(o), Mapper::Mapper170(n)) => n == o.after_reset(soft),
            (Mapper::Mapper177(o), Mapper::Mapper177(n)) => n == o.after_reset(soft),
            (Mapper::Mapper230(o), Mapper::Mapper230(n)) => Mapper230::was_reset(o, n, soft),
            (Mapper::Mapper233(o), Mapper::Mapper233(n)) => Mapper233::was_reset(o, n, soft),
            _ => Mapper::was_reset_4(old, new, soft),
        }
    }

    pub open spec fn was_reset_4(old: Mapper, new: Mapper, soft: bool) -> bool {
        match (old, new) {
            (Mapper::ActionEnterprises(o), Mapper::ActionEnterprises(n)) => ActionEnterprises::was_reset(o, n, soft),
            (Mapper::BandaiFcg(o), Mapper::BandaiFcg(n)) => BandaiFcg::was_reset(o, n, soft),
            (Mapper::Action53(o), Mapper::Action53(n)) => n == o.after_reset(soft),
            (Mapper::Mapper53(o), Mapper::Mapper53(n)) => n == o.after_reset(soft),
            (Mapper::Mapper51(o), Mapper::Mapper51(n)) => n == o.after_reset(soft),
            (Mapper::Mapper128(o), Mapper::Mapper128(n)) => n == o.after_reset(soft),
            _ => Mapper::was_reset_5(old, new, soft),
        }
    }

    pub open spec fn was_reset_5(old: Mapper, new: Mapper, soft: bool) -> bool {
        match (old, new) {
            (Mapper::Mapper236(o), Mapper::Mapper236(n)) => Mapper236::was_reset(o, n, soft),
            (Mapper::Mapper237(o), Mapper::Mapper237(n)) => Mapper237::was_reset(o, n, soft),
            _ => Mapper::was_reset_6(old, new, soft),
        }
    }

    pub open spec fn was_reset_6(old: Mapper, new: Mapper, soft: bool) -> bool {
        match (old, new) {
            (Mapper::Mapper60(o), Mapper::Mapper60(n)) => n == o.after_reset(soft),
            _ => Mapper::was_reset_7(old, new, soft),
        }
    }

    pub open spec fn was_reset_7(old: Mapper, new: Mapper, soft: bool) -> bool {
        match (old, new) {
            (Mapper::Mapper235(o), Mapper::Mapper235(n)) => n == o.after_reset(soft),
            (Mapper::Mapper272(o), Mapper::Mapper272(n)) => Mapper272::was_reset(o, n, soft),
            (Mapper::Mapper330(o), Mapper::Mapper330(n)) => Mapper330::was_reset(o, n, soft),
            (Mapper::JyAsic(o), Mapper::JyAsic(n)) => n == o.after_reset(soft),
            _ => new == old,
        }
    }

    /// Console reset (soft) or power cycle.
    pub fn reset(&mut self, soft: bool)
        requires old(self).wf(),
        ensures Mapper::was_reset(*old(self), *final(self), soft), final(self).wf(),
    {
        match self {
            Mapper::Mapper99(m) => m.reset(soft),
            _ => self.reset_1(soft),
        }
    }

    fn reset_1(&mut self, soft: bool)
        requires old(self).wf(),
        ensures Mapper::was_reset_1(*old(self), *final(self), soft), final(self).wf(),
    {
        match self {
            _ => self.reset_2(soft),
        }
    }

    fn reset_2(&mut self, soft: bool)
        requires old(self).wf(),
        ensures Mapper::was_reset_2(*old(self), *final(self), soft), final(self).wf(),
    {
        match self {
            Mapper::Sachen8259(m) => m.reset(soft),
            Mapper::Sachen74Ls374N(m) => m.reset(soft),
            Mapper::Mapper271(m) => m.reset(soft),
            Mapper::Mapper285(m) => m.reset(soft),
            Mapper::Mapper310(m) => m.reset(soft),
            Mapper::Mapper319(m) => m.reset(soft),
            Mapper::Mapper156(m) => m.reset(soft),
            Mapper::NanjingMapper(m) => m.reset(soft),
            Mapper::Tf1201(m) => m.reset(soft),
            _ => self.reset_3(soft),
        }
    }

    fn reset_3(&mut self, soft: bool)
        requires old(self).wf(),
        ensures Mapper::was_reset_3(*old(self), *final(self), soft), final(self).wf(),
    {
        match self {
            Mapper::TxcMapper(m) => m.reset(soft),
            Mapper::Mapper104(m) => m.reset(soft),
            Mapper::Mapper190(m) => m.reset(soft),
            Mapper::Mapper168(m) => m.reset(soft),
            Mapper::Mapper170(m) => m.reset(soft),
            Mapper::Mapper177(m) => m.reset(soft),
            Mapper::Mapper230(m) => m.reset(soft),
            Mapper::Mapper233(m) => m.reset(soft),
            _ => self.reset_4(soft),
        }
    }

    fn reset_4(&mut self, soft: bool)
        requires old(self).wf(),
        ensures Mapper::was_reset_4(*old(self), *final(self), soft), final(self).wf(),
    {
        match self {
            Mapper::ActionEnterprises(m) => m.reset(soft),
            Mapper::BandaiFcg(m) => m.reset(soft),
            Mapper::Action53(m) => m.reset(soft),
            Mapper::Mapper53(m) => m.reset(soft),
            Mapper::Mapper51(m) => m.reset(soft),
            Mapper::Mapper128(m) => m.reset(soft),
            _ => self.reset_5(soft),
        }
    }

    fn reset_5(&mut self, soft: bool)
        requires old(self).wf(),
        ensures Mapper::was_reset_5(*old(self), *final(self), soft), final(self).wf(),
    {
        match self {
            Mapper::Mapper236(m) => m.reset(soft),
            Mapper::Mapper237(m) => m.reset(soft),
            _ => self.reset_6(soft),
        }
    }

    fn reset_6(&mut self, soft: bool)
        requires old(self).wf(),
        ensures Mapper::was_reset_6(*old(self), *final(self), soft), final(self).wf(),
    {
        match self {
            Mapper::Mapper60(m) => m.reset(soft),
            _ => self.reset_7(soft),
        }
    }

    fn reset_7(&mut self, soft: bool)
        requires old(self).wf(),
        ensures Mapper::was_reset_7(*old(self), *final(self), soft), final(self).wf(),
    {
        match self {
            Mapper::Mapper235(m) => m.reset(soft),
            Mapper::Mapper272(m) => m.reset(soft),
            Mapper::Mapper330(m) => m.reset(soft),
            Mapper::JyAsic(m) => m.reset(soft),
            _ => {},
        }
    }

    pub open spec fn cpu_ticked(old: Mapper, new: Mapper) -> bool {
        match (old, new) {
            _ => Mapper::cpu_ticked_1(old, new),
        }
    }

    pub open spec fn cpu_ticked_1(old: Mapper, new: Mapper) -> bool {
        match (old, new) {
            _ => Mapper::cpu_ticked_2(old, new),
        }
    }

    pub open spec fn cpu_ticked_2(old: Mapper, new: Mapper) -> bool {
        match (old, new) {
            (Mapper::Tf1201(o), Mapper::Tf1201(n)) => n == o.after_cpu_clock(),
            _ => Mapper::cpu_ticked_3(old, new),
        }
    }

    pub open spec fn cpu_ticked_3(old: Mapper, new: Mapper) -> bool {
        match (old, new) {
            (Mapper::Mapper168(o), Mapper::Mapper168(n)) => Mapper168::cpu_ticked(o, n),
            _ => Mapper::cpu_ticked_4(old, new),
        }
    }

    pub open spec fn cpu_ticked_4(old: Mapper, new: Mapper) -> bool {
        match (old, new) {
            (Mapper::BandaiFcg(o), Mapper::BandaiFcg(n)) => BandaiFcg::cpu_ticked(o, n),
            _ => Mapper::cpu_ticked_5(old, new),
        }
    }

    pub open spec fn cpu_ticked_5(old: Mapper, new: Mapper) -> bool {
        match (old, new) {
            _ => Mapper::cpu_ticked_6(old, new),
        }
    }

    pub open spec fn cpu_ticked_6(old: Mapper, new: Mapper) -> bool {
        match (old, new) {
            (Mapper::Mapper18(o), Mapper::Mapper18(n)) => Mapper18::cpu_ticked(o, n),
            (Mapper::Mapper40(o), Mapper::Mapper40(n)) => n == o.after_cpu_clock(),
            (Mapper::Mapper42(o), Mapper::Mapper42(n)) => n == o.after_cpu_clock(),
            (Mapper::Mapper50(o), Mapper::Mapper50(n)) => n == o.after_cpu_clock(),
            (Mapper::Mapper65(o), Mapper::Mapper65(n)) => Mapper65::cpu_ticked(o, n),
            (Mapper::Mapper67(o), Mapper::Mapper67(n)) => Mapper67::cpu_ticked(o, n),
            (Mapper::Mapper73(o), Mapper::Mapper73(n)) => n == o.after_cpu_clock(),
            (Mapper::Mapper83(o), Mapper::Mapper83(n)) => n == o.after_cpu_clock(),
            (Mapper::Mapper183(o), Mapper::Mapper183(n)) => n == o.after_cpu_clock(),
            _ => Mapper::cpu_ticked_7(old, new),
        }
    }

    pub open spec fn cpu_ticked_7(old: Mapper, new: Mapper) -> bool {
        match (old, new) {
            (Mapper::Mapper330(o), Mapper::Mapper330(n)) => n == o.after_cpu_clock(),
            (Mapper::JyAsic(o), Mapper::JyAsic(n)) => n == o.after_cpu_clock(),
            _ => new == old,
        }
    }

    /// One CPU cycle for boards that count them.
    pub fn cpu_clock(&mut self)
        requires old(self).wf(),
        ensures Mapper::cpu_ticked(*old(self), *final(self)), final(self).wf(),
    {
        match self {
            _ => self.cpu_clock_1(),
        }
    }

    fn cpu_clock_1(&mut self)
        requires old(self).wf(),
        ensures Mapper::cpu_ticked_1(*old(self), *final(self)), final(self).wf(),
    {
        match self {
            _ => self.cpu_clock_2(),
        }
    }

    fn cpu_clock_2(&mut self)
        requires old(self).wf(),
        ensures Mapper::cpu_ticked_2(*old(self), *final(self)), final(self).wf(),
    {
        match self {
            Mapper::Tf1201(m) => m.cpu_clock(),
            _ => self.cpu_clock_3(),
        }
    }

    fn cpu_clock_3(&mut self)
        requires old(self).wf(),
        ensures Mapper::cpu_ticked_3(*old(self), *final(self)), final(self).wf(),
    {
        match self {
            Mapper::Mapper168(m) => m.cpu_clock(),
            _ => self.cpu_clock_4(),
        }
    }

    fn cpu_clock_4(&mut self)
        requires old(self).wf(),
        ensures Mapper::cpu_ticked_4(*old(self), *final(self)), final(self).wf(),
    {
        match self {
            Mapper::BandaiFcg(m) => m.cpu_clock(),
            _ => self.cpu_clock_5(),
        }
    }

    fn cpu_clock_5(&mut self)
        requires old(self).wf(),
        ensures Mapper::cpu_ticked_5(*old(self), *final(self)), final(self).wf(),
    {
        match self {
            _ => self.cpu_clock_6(),
        }
    }

    fn cpu_clock_6(&mut self)
        requires old(self).wf(),
        ensures Mapper::cpu_ticked_6(*old(self), *final(self)), final(self).wf(),
    {
        match self {
            Mapper::Mapper18(m) => m.cpu_clock(),
            Mapper::Mapper40(m) => m.cpu_clock(),
            Mapper::Mapper42(m) => m.cpu_clock(),
            Mapper::Mapper50(m) => m.cpu_clock(),
            Mapper::Mapper65(m) => m.cpu_clock(),
            Mapper::Mapper67(m) => m.cpu_clock(),
            Mapper::Mapper73(m) => m.cpu_clock(),
            Mapper::Mapper83(m) => m.cpu_clock(),
            Mapper::Mapper183(m) => m.cpu_clock(),
            _ => self.cpu_clock_7(),
        }
    }

    fn cpu_clock_7(&mut self)
        requires old(self).wf(),
        ensures Mapper::cpu_ticked_7(*old(self), *final(self)), final(self).wf(),
    {
        match self {
            Mapper::Mapper330(m) => m.cpu_clock(),
            Mapper::JyAsic(m) => m.cpu_clock(),
            _ => {},
        }
    }

    pub open spec fn irq_cleared(old: Mapper, new: Mapper) -> bool {
        match (old, new) {
            _ => Mapper::irq_cleared_1(old, new),
        }
    }

    pub open spec fn irq_cleared_1(old: Mapper, new: Mapper) -> bool {
        match (old, new) {
            _ => Mapper::irq_cleared_2(old, new),
        }
    }

    pub open spec fn irq_cleared_2(old: Mapper, new: Mapper) -> bool {
        match (old, new) {
            (Mapper::Tf1201(o), Mapper::Tf1201(n)) => n == o.after_clear_irq(),
            _ => Mapper::irq_cleared_3(old, new),
        }
    }

    pub open spec fn irq_cleared_3(old: Mapper, new: Mapper) -> bool {
        match (old, new) {
            (Mapper::Mapper168(o), Mapper::Mapper168(n)) => Mapper168::irq_cleared(o, n),
            (Mapper::Mapper116(o), Mapper::Mapper116(n)) => n == o.after_clear_irq(),
            _ => Mapper::irq_cleared_4(old, new),
        }
    }

    pub open spec fn irq_cleared_4(old: Mapper, new: Mapper) -> bool {
        match (old, new) {
            (Mapper::BandaiFcg(o), Mapper::BandaiFcg(n)) => BandaiFcg::irq_cleared(o, n),
            _ => Mapper::irq_cleared_5(old, new),
        }
    }

    pub open spec fn irq_cleared_5(old: Mapper, new: Mapper) -> bool {
        match (old, new) {
            _ => Mapper::irq_cleared_6(old, new),
        }
    }

    pub open spec fn irq_cleared_6(old: Mapper, new: Mapper) -> bool {
        match (old, new) {
            (Mapper::Mapper18(o), Mapper::Mapper18(n)) => n == o.after_clear_irq(),
            (Mapper::Mapper40(o), Mapper::Mapper40(n)) => n == o.after_clear_irq(),
            (Mapper::Mapper42(o), Mapper::Mapper42(n)) => n == o.after_clear_irq(),
            (Mapper::Mapper50(o), Mapper::Mapper50(n)) => n == o.after_clear_irq(),
            (Mapper::Mapper65(o), Mapper::Mapper65(n)) => n == o.after_clear_irq(),
            (Mapper::Mapper67(o), Mapper::Mapper67(n)) => n == o.after_clear_irq(),
            (Mapper::Mapper73(o), Mapper::Mapper73(n)) => n == o.after_clear_irq(),
            (Mapper::Mapper117(o), Mapper::Mapper117(n)) => n == o.after_clear_irq(),
            (Mapper::Mapper83(o), Mapper::Mapper83(n)) => n == o.after_clear_irq(),
            (Mapper::Mapper183(o), Mapper::Mapper183(n)) => n == o.after_clear_irq(),
            _ => Mapper::irq_cleared_7(old, new),
        }
    }

    pub open spec fn irq_cleared_7(old: Mapper, new: Mapper) -> bool {
        match (old, new) {
            (Mapper::Mapper222(o), Mapper::Mapper222(n)) => n == o.after_clear_irq(),
            (Mapper::Mapper272(o), Mapper::Mapper272(n)) => n == o.after_clear_irq(),
            (Mapper::Mapper330(o), Mapper::Mapper330(n)) => n == o.after_clear_irq(),
            (Mapper::Mapper91(o), Mapper::Mapper91(n)) => n == o.after_clear_irq(),
            (Mapper::JyAsic(o), Mapper::JyAsic(n)) => n == o.after_clear_irq(),
            _ => new == old,
        }
    }

    /// Acknowledge the board IRQ.
    pub fn clear_irq(&mut self)
        requires old(self).wf(),
        ensures Mapper::irq_cleared(*old(self), *final(self)), final(self).wf(),
    {
        match self {
            _ => self.clear_irq_1(),
        }
    }

    fn clear_irq_1(&mut self)
        requires old(self).wf(),
        ensures Mapper::irq_cleared_1(*old(self), *final(self)), final(self).wf(),
    {
        match self {
            _ => self.clear_irq_2(),
        }
    }

    fn clear_irq_2(&mut self)
        requires old(self).wf(),
        ensures Mapper::irq_cleared_2(*old(self), *final(self)), final(self).wf(),
    {
        match self {
            Mapper::Tf1201(m) => m.clear_irq(),
            _ => self.clear_irq_3(),
        }
    }

    fn clear_irq_3(&mut self)
        requires old(self).wf(),
        ensures Mapper::irq_cleared_3(*old(self), *final(self)), final(self).wf(),
    {
        match self {
            Mapper::Mapper168(m) => m.clear_irq(),
            Mapper::Mapper116(m) => m.clear_irq(),
            _ => self.clear_irq_4(),
        }
    }

    fn clear_irq_4(&mut self)
        requires old(self).wf(),
        ensures Mapper::irq_cleared_4(*old(self), *final(self)), final(self).wf(),
    {
        match self {
            Mapper::BandaiFcg(m) => m.clear_irq(),
            _ => self.clear_irq_5(),
        }
    }

    fn clear_irq_5(&mut self)
        requires old(self).wf(),
        ensures Mapper::irq_cleared_5(*old(self), *final(self)), final(self).wf(),
    {
        match self {
            _ => self.clear_irq_6(),
        }
    }

    fn clear_irq_6(&mut self)
        requires old(self).wf(),
        ensures Mapper::irq_cleared_6(*old(self), *final(self)), final(self).wf(),
    {
        match self {
            Mapper::Mapper18(m) => m.clear_irq(),
            Mapper::Mapper40(m) => m.clear_irq(),
            Mapper::Mapper42(m) => m.clear_irq(),
            Mapper::Mapper50(m) => m.clear_irq(),
            Mapper::Mapper65(m) => m.clear_irq(),
            Mapper::Mapper67(m) => m.clear_irq(),
            Mapper::Mapper73(m) => m.clear_irq(),
            Mapper::Mapper117(m) => m.clear_irq(),
            Mapper::Mapper83(m) => m.clear_irq(),
            Mapper::Mapper183(m) => m.clear_irq(),
            _ => self.clear_irq_7(),
        }
    }

    fn clear_irq_7(&mut self)
        requires old(self).wf(),
        ensures Mapper::irq_cleared_7(*old(self), *final(self)), final(self).wf(),
    {
        match self {
            Mapper::Mapper222(m) => m.clear_irq(),
            Mapper::Mapper272(m) => m.clear_irq(),
            Mapper::Mapper330(m) => m.clear_irq(),
            Mapper::Mapper91(m) => m.clear_irq(),
            Mapper::JyAsic(m) => m.clear_irq(),
            _ => {},
        }
    }

    pub open spec fn a12_noted(old: Mapper, new: Mapper, addr: u16, cycle: u64) -> bool {
        match (old, new) {
            _ => Mapper::a12_noted_1(old, new, addr, cycle),
        }
    }

    pub open spec fn a12_noted_1(old: Mapper, new: Mapper, addr: u16, cycle: u64) -> bool {
        match (old, new) {
            _ => Mapper::a12_noted_2(old, new, addr, cycle),
        }
    }

    pub open spec fn a12_noted_2(old: Mapper, new: Mapper, addr: u16, cycle: u64) -> bool {
        match (old, new) {
            _ => Mapper::a12_noted_3(old, new, addr, cycle),
        }
    }

    pub open spec fn a12_noted_3(old: Mapper, new: Mapper, addr: u16, cycle: u64) -> bool {
        match (old, new) {
            (Mapper::Mapper116(o), Mapper::Mapper116(n)) => n == o.after_a12(addr, cycle),
            _ => Mapper::a12_noted_4(old, new, addr, cycle),
        }
    }

    pub open spec fn a12_noted_4(old: Mapper, new: Mapper, addr: u16, cycle: u64) -> bool {
        match (old, new) {
            _ => Mapper::a12_noted_5(old, new, addr, cycle),
        }
    }

    pub open spec fn a12_noted_5(old: Mapper, new: Mapper, addr: u16, cycle: u64) -> bool {
        match (old, new) {
            (Mapper::Mapper96(o), Mapper::Mapper96(n)) => n == o.after_a12(addr, cycle),
            _ => Mapper::a12_noted_6(old, new, addr, cycle),
        }
    }

    pub open spec fn a12_noted_6(old: Mapper, new: Mapper, addr: u16, cycle: u64) -> bool {
        match (old, new) {
            (Mapper::Mapper117(o), Mapper::Mapper117(n)) => Mapper117::a12_noted(o, n, addr, cycle),
            _ => Mapper::a12_noted_7(old, new, addr, cycle),
        }
    }

    pub open spec fn a12_noted_7(old: Mapper, new: Mapper, addr: u16, cycle: u64) -> bool {
        match (old, new) {
            (Mapper::Mapper222(o), Mapper::Mapper222(n)) => Mapper222::a12_noted(o, n, addr, cycle),
            (Mapper::Mapper272(o), Mapper::Mapper272(n)) => Mapper272::a12_noted(o, n, addr, cycle),
            (Mapper::JyAsic(o), Mapper::JyAsic(n)) => JyAsic::a12_noted(o, n, addr, cycle),
            _ => new == old,
        }
    }

    /// A PPU address seen by boards that watch A12, with the PPU cycle count.
    pub fn notify_a12(&mut self, addr: u16, cycle: u64)
        requires old(self).wf(),
        ensures Mapper::a12_noted(*old(self), *final(self), addr, cycle), final(self).wf(),
    {
        match self {
            _ => self.notify_a12_1(addr, cycle),
        }
    }

    fn notify_a12_1(&mut self, addr: u16, cycle: u64)
        requires old(self).wf(),
        ensures Mapper::a12_noted_1(*old(self), *final(self), addr, cycle), final(self).wf(),
    {
        match self {
            _ => self.notify_a12_2(addr, cycle),
        }
    }

    fn notify_a12_2(&mut self, addr: u16, cycle: u64)
        requires old(self).wf(),
        ensures Mapper::a12_noted_2(*old(self), *final(self), addr, cycle), final(self).wf(),
    {
        match self {
            _ => self.notify_a12_3(addr, cycle),
        }
    }

    fn notify_a12_3(&mut self, addr: u16, cycle: u64)
        requires old(self).wf(),
        ensures Mapper::a12_noted_3(*old(self), *final(self), addr, cycle), final(self).wf(),
    {
        match self {
            Mapper::Mapper116(m) => m.notify_a12(addr, cycle),
            _ => self.notify_a12_4(addr, cycle),
        }
    }

    fn notify_a12_4(&mut self, addr: u16, cycle: u64)
        requires old(self).wf(),
        ensures Mapper::a12_noted_4(*old(self), *final(self), addr, cycle), final(self).wf(),
    {
        match self {
            _ => self.notify_a12_5(addr, cycle),
        }
    }

    fn notify_a12_5(&mut self, addr: u16, cycle: u64)
        requires old(self).wf(),
        ensures Mapper::a12_noted_5(*old(self), *final(self), addr, cycle), final(self).wf(),
    {
        match self {
            Mapper::Mapper96(m) => m.notify_a12(addr, cycle),
            _ => self.notify_a12_6(addr, cycle),
        }
    }

    fn notify_a12_6(&mut self, addr: u16, cycle: u64)
        requires old(self).wf(),
        ensures Mapper::a12_noted_6(*old(self), *final(self), addr, cycle), final(self).wf(),
    {
        match self {
            Mapper::Mapper117(m) => m.notify_a12(addr, cycle),
            _ => self.notify_a12_7(addr, cycle),
        }
    }

    fn notify_a12_7(&mut self, addr: u16, cycle: u64)
        requires old(self).wf(),
        ensures Mapper::a12_noted_7(*old(self), *final(self), addr, cycle), final(self).wf(),
    {
        match self {
            Mapper::Mapper222(m) => m.notify_a12(addr, cycle),
            Mapper::Mapper272(m) => m.notify_a12(addr, cycle),
            Mapper::JyAsic(m) => m.notify_a12(addr, cycle),
            _ => {},
        }
    }

    pub open spec fn hblank_ticked(old: Mapper, new: Mapper, scanline: u16, dot: u16) -> bool {
        match (old, new) {
            _ => Mapper::hblank_ticked_1(old, new, scanline, dot),
        }
    }

    pub open spec fn hblank_ticked_1(old: Mapper, new: Mapper, scanline: u16, dot: u16) -> bool {
        match (old, new) {
            _ => Mapper::hblank_ticked_2(old, new, scanline, dot),
        }
    }

    pub open spec fn hblank_ticked_2(old: Mapper, new: Mapper, scanline: u16, dot: u16) -> bool {
        match (old, new) {
            (Mapper::NanjingMapper(o), Mapper::NanjingMapper(n)) => n == o.after_hblank(scanline, dot),
            _ => Mapper::hblank_ticked_3(old, new, scanline, dot),
        }
    }

    pub open spec fn hblank_ticked_3(old: Mapper, new: Mapper, scanline: u16, dot: u16) -> bool {
        match (old, new) {
            _ => Mapper::hblank_ticked_4(old, new, scanline, dot),
        }
    }

    pub open spec fn hblank_ticked_4(old: Mapper, new: Mapper, scanline: u16, dot: u16) -> bool {
        match (old, new) {
            _ => Mapper::hblank_ticked_5(old, new, scanline, dot),
        }
    }

    pub open spec fn hblank_ticked_5(old: Mapper, new: Mapper, scanline: u16, dot: u16) -> bool {
        match (old, new) {
            _ => Mapper::hblank_ticked_6(old, new, scanline, dot),
        }
    }

    pub open spec fn hblank_ticked_6(old: Mapper, new: Mapper, scanline: u16, dot: u16) -> bool {
        match (old, new) {
            _ => Mapper::hblank_ticked_7(old, new, scanline, dot),
        }
    }

    pub open spec fn hblank_ticked_7(old: Mapper, new: Mapper, scanline: u16, dot: u16) -> bool {
        match (old, new) {
            (Mapper::Mapper91(o), Mapper::Mapper91(n)) => n == o.after_hblank(scanline, dot),
            (Mapper::JyAsic(o), Mapper::JyAsic(n)) => n == o.after_hblank(scanline, dot),
            _ => new == old,
        }
    }

    /// The H-blank tick of a visible scanline.
    pub fn hblank_clock(&mut self, scanline: u16, dot: u16)
        requires old(self).wf(),
        ensures Mapper::hblank_ticked(*old(self), *final(self), scanline, dot), final(self).wf(),
    {
        match self {
            _ => self.hblank_clock_1(scanline, dot),
        }
    }

    fn hblank_clock_1(&mut self, scanline: u16, dot: u16)
        requires old(self).wf(),
        ensures Mapper::hblank_ticked_1(*old(self), *final(self), scanline, dot), final(self).wf(),
    {
        match self {
            _ => self.hblank_clock_2(scanline, dot),
        }
    }

    fn hblank_clock_2(&mut self, scanline: u16, dot: u16)
        requires old(self).wf(),
        ensures Mapper::hblank_ticked_2(*old(self), *final(self), scanline, dot), final(self).wf(),
    {
        match self {
            Mapper::NanjingMapper(m) => m.hblank_clock(scanline, dot),
            _ => self.hblank_clock_3(scanline, dot),
        }
    }

    fn hblank_clock_3(&mut self, scanline: u16, dot: u16)
        requires old(self).wf(),
        ensures Mapper::hblank_ticked_3(*old(self), *final(self), scanline, dot), final(self).wf(),
    {
        match self {
            _ => self.hblank_clock_4(scanline, dot),
        }
    }

    fn hblank_clock_4(&mut self, scanline: u16, dot: u16)
        requires old(self).wf(),
        ensures Mapper::hblank_ticked_4(*old(self), *final(self), scanline, dot), final(self).wf(),
    {
        match self {
            _ => self.hblank_clock_5(scanline, dot),
        }
    }

    fn hblank_clock_5(&mut self, scanline: u16, dot: u16)
        requires old(self).wf(),
        ensures Mapper::hblank_ticked_5(*old(self), *final(self), scanline, dot), final(self).wf(),
    {
        match self {
            _ => self.hblank_clock_6(scanline, dot),
        }
    }

    fn hblank_clock_6(&mut self, scanline: u16, dot: u16)
        requires old(self).wf(),
        ensures Mapper::hblank_ticked_6(*old(self), *final(self), scanline, dot), final(self).wf(),
    {
        match self {
            _ => self.hblank_clock_7(scanline, dot),
        }
    }

    fn hblank_clock_7(&mut self, scanline: u16, dot: u16)
        requires old(self).wf(),
        ensures Mapper::hblank_ticked_7(*old(self), *final(self), scanline, dot), final(self).wf(),
    {
        match self {
            Mapper::Mapper91(m) => m.hblank_clock(scanline, dot),
            Mapper::JyAsic(m) => m.hblank_clock(scanline, dot),
            _ => {},
        }
    }

    pub open spec fn register_read(old: Mapper, new: Mapper, addr: u16, prg_value: u8, open_bus: u8) -> bool {
        match (old, new) {
            _ => Mapper::register_read_1(old, new, addr, prg_value, open_bus),
        }
    }

    pub open spec fn register_read_1(old: Mapper, new: Mapper, addr: u16, prg_value: u8, open_bus: u8) -> bool {
        match (old, new) {
            _ => Mapper::register_read_2(old, new, addr, prg_value, open_bus),
        }
    }

    pub open spec fn register_read_2(old: Mapper, new: Mapper, addr: u16, prg_value: u8, open_bus: u8) -> bool {
        match (old, new) {
            _ => Mapper::register_read_3(old, new, addr, prg_value, open_bus),
        }
    }

    pub open spec fn register_read_3(old: Mapper, new: Mapper, addr: u16, prg_value: u8, open_bus: u8) -> bool {
        match (old, new) {
            _ => Mapper::register_read_4(old, new, addr, prg_value, open_bus),
        }
    }

    pub open spec fn register_read_4(old: Mapper, new: Mapper, addr: u16, prg_value: u8, open_bus: u8) -> bool {
        match (old, new) {
            _ => Mapper::register_read_5(old, new, addr, prg_value, open_bus),
        }
    }

    pub open spec fn register_read_5(old: Mapper, new: Mapper, addr: u16, prg_value: u8, open_bus: u8) -> bool {
        match (old, new) {
            _ => Mapper::register_read_6(old, new, addr, prg_value, open_bus),
        }
    }

    pub open spec fn register_read_6(old: Mapper, new: Mapper, addr: u16, prg_value: u8, open_bus: u8) -> bool {
        match (old, new) {
            (Mapper::Mapper175(o), Mapper::Mapper175(n)) => n == o.after_read(addr, prg_value, open_bus),
            (Mapper::Mapper234(o), Mapper::Mapper234(n)) => Mapper234::register_read(o, n, addr, prg_value, open_bus),
            _ => Mapper::register_read_7(old, new, addr, prg_value, open_bus),
        }
    }

    pub open spec fn register_read_7(old: Mapper, new: Mapper, addr: u16, prg_value: u8, open_bus: u8) -> bool {
        match (old, new) {
            (Mapper::Mapper235(o), Mapper::Mapper235(n)) => n == o.after_read(addr, prg_value, open_bus),
            _ => new == old,
        }
    }

    /// A CPU read of $8000-$FFFF: the value `peek_register_with_open_bus` reports; a few boards latch state on the read.
    pub fn read_register_with_open_bus(&mut self, addr: u16, prg_value: u8, open_bus: u8) -> (r: Option<u8>)
        requires old(self).wf(),
        ensures r == old(self).peek_register_with_open_bus_spec(addr, prg_value, open_bus),
            Mapper::register_read(*old(self), *final(self), addr, prg_value, open_bus), final(self).wf(),
    {
        match self {
            _ => self.read_register_with_open_bus_1(addr, prg_value, open_bus),
        }
    }

    fn read_register_with_open_bus_1(&mut self, addr: u16, prg_value: u8, open_bus: u8) -> (r: Option<u8>)
        requires old(self).wf(),
        ensures r == old(self).peek_register_with_open_bus_spec_1(addr, prg_value, open_bus),
            Mapper::register_read_1(*old(self), *final(self), addr, prg_value, open_bus), final(self).wf(),
    {
        match self {
            _ => self.read_register_with_open_bus_2(addr, prg_value, open_bus),
        }
    }

    fn read_register_with_open_bus_2(&mut self, addr: u16, prg_value: u8, open_bus: u8) -> (r: Option<u8>)
        requires old(self).wf(),
        ensures r == old(self).peek_register_with_open_bus_spec_2(addr, prg_value, open_bus),
            Mapper::register_read_2(*old(self), *final(self), addr, prg_value, open_bus), final(self).wf(),
    {
        match self {
            _ => self.read_register_with_open_bus_3(addr, prg_value, open_bus),
        }
    }

    fn read_register_with_open_bus_3(&mut self, addr: u16, prg_value: u8, open_bus: u8) -> (r: Option<u8>)
        requires old(self).wf(),
        ensures r == old(self).peek_register_with_open_bus_spec_3(addr, prg_value, open_bus),
            Mapper::register_read_3(*old(self), *final(self), addr, prg_value, open_bus), final(self).wf(),
    {
        match self {
            _ => self.read_register_with_open_bus_4(addr, prg_value, open_bus),
        }
    }

    fn read_register_with_open_bus_4(&mut self, addr: u16, prg_value: u8, open_bus: u8) -> (r: Option<u8>)
        requires old(self).wf(),
        ensures r == old(self).peek_register_with_open_bus_spec_4(addr, prg_value, open_bus),
            Mapper::register_read_4(*old(self), *final(self), addr, prg_value, open_bus), final(self).wf(),
    {
        match self {
            Mapper::AddrLatch16k(m) => m.peek_register_with_open_bus(addr, prg_value, open_bus),
            Mapper::Mapper63(m) => m.peek_register_with_open_bus(addr, prg_value, open_bus),
            _ => self.read_register_with_open_bus_5(addr, prg_value, open_bus),
        }
    }

    fn read_register_with_open_bus_5(&mut self, addr: u16, prg_value: u8, open_bus: u8) -> (r: Option<u8>)
        requires old(self).wf(),
        ensures r == old(self).peek_register_with_open_bus_spec_5(addr, prg_value, open_bus),
            Mapper::register_read_5(*old(self), *final(self), addr, prg_value, open_bus), final(self).wf(),
    {
        match self {
            Mapper::Mapper237(m) => m.peek_register_with_open_bus(addr, prg_value, open_bus),
            _ => self.read_register_with_open_bus_6(addr, prg_value, open_bus),
        }
    }

    fn read_register_with_open_bus_6(&mut self, addr: u16, prg_value: u8, open_bus: u8) -> (r: Option<u8>)
        requires old(self).wf(),
        ensures r == old(self).peek_register_with_open_bus_spec_6(addr, prg_value, open_bus),
            Mapper::register_read_6(*old(self), *final(self), addr, prg_value, open_bus), final(self).wf(),
    {
        match self {
            Mapper::Mapper175(m) => m.read_register_with_open_bus(addr, prg_value, open_bus),
            Mapper::Mapper234(m) => m.read_register_with_open_bus(addr, prg_value, open_bus),
            _ => self.read_register_with_open_bus_7(addr, prg_value, open_bus),
        }
    }

    fn read_register_with_open_bus_7(&mut self, addr: u16, prg_value: u8, open_bus: u8) -> (r: Option<u8>)
        requires old(self).wf(),
        ensures r == old(self).peek_register_with_open_bus_spec_7(addr, prg_value, open_bus),
            Mapper::register_read_7(*old(self), *final(self), addr, prg_value, open_bus), final(self).wf(),
    {
        match self {
            Mapper::Mapper235(m) => m.read_register_with_open_bus(addr, prg_value, open_bus),
            _ => None,
        }
    }

    /// Register read side effects: reads of the supported boards have none,
    /// so this returns what `peek_low_register` reports.
    pub fn read_low_register(&mut self, addr: u16) -> (r: Option<u8>)
        requires old(self).wf(),
        ensures r == old(self).peek_low_register_spec(addr), *final(self) == *old(self),
    {
        self.peek_low_register(addr)
    }

    /// Expansion-area read; side-effect free on the supported boards.
    pub fn read_expansion(&mut self, addr: u16) -> (r: Option<u8>)
        requires old(self).wf(),
        ensures r == old(self).peek_expansion_spec(addr), *final(self) == *old(self),
    {
        self.peek_expansion(addr)
    }

    /// Is there a board of the `board` family for this mapper number?
    pub open spec fn supported_board(number: u16) -> bool {
        (number == 0)
        || (number == 2)
        || (number == 3)
        || (number == 7)
        || (number == 11)
        || (number == 66)
        || (number == 71)
        || (number == 232)
    }

    pub open spec fn builds_board(number: u16, prg_16k: usize, chr_8k: usize, mirroring: Mirroring, submapper: u8, m: Mapper) -> bool {
        if number == 0 { m == Mapper::Nrom(Nrom { prg_16k: max1(prg_16k), mirroring }) }
        else if number == 2 { m == Mapper::Unrom(Unrom { prg_16k: max1(prg_16k), bank: 0, mirroring }) }
        else if number == 3 { m == Mapper::Cnrom(Cnrom { prg_16k: max1(prg_16k), chr_bank: 0, mirroring }) }
        else if number == 7 { m == Mapper::Axrom(Axrom { bank: 0, high: false }) }
        else if number == 11 { m == Mapper::ColorDreams(ColorDreams { prg_bank: 0, chr_bank: 0, mirroring }) }
        else if number == 66 { m == Mapper::Gxrom(Gxrom { prg_bank: 0, chr_bank: 0, mirroring }) }
        else if number == 71 { m == Mapper::Codemasters(Codemasters { prg_16k: max1(prg_16k), bank: 0, mirroring }) }
        else if number == 232 { m == Mapper::Bf9096(Bf9096 { prg_16k: max1(prg_16k), prg_block: 0, prg_page: 0, submapper, mirroring }) }
        else { false }
    }

    /// The `board` family's constructor: `None` for numbers it does not cover.
    pub fn build_board(number: u16, prg_16k: usize, chr_8k: usize, mirroring: Mirroring, submapper: u8) -> (r: Option<Mapper>)
        requires prg_16k <= MAX_PRG_16K, chr_8k <= MAX_CHR_8K,
        ensures
            Mapper::supported_board(number) ==> (r matches Some(m) && Mapper::builds_board(number, prg_16k, chr_8k, mirroring, submapper, m) && m.wf()),
            !Mapper::supported_board(number) ==> r is None,
    {
        if number == 0 {
            Some(Mapper::Nrom(Nrom::new(prg_16k, mirroring)))
        } else if number == 2 {
            Some(Mapper::Unrom(Unrom::new(prg_16k, mirroring)))
        } else if number == 3 {
            Some(Mapper::Cnrom(Cnrom::new(prg_16k, mirroring)))
        } else if number == 7 {
            Some(Mapper::Axrom(Axrom::new()))
        } else if number == 11 {
            Some(Mapper::ColorDreams(ColorDreams::new(mirroring)))
        } else if number == 66 {
            Some(Mapper::Gxrom(Gxrom::new(mirroring)))
        } else if number == 71 {
            Some(Mapper::Codemasters(Codemasters::new(prg_16k, mirroring)))
        } else if number == 232 {
            Some(Mapper::Bf9096(Bf9096::new(prg_16k, submapper, mirroring)))
        } else {
            None
        }
    }

    /// Is there a board of the `latch` family for this mapper number?
    pub open spec fn supported_latch(number: u16) -> bool {
        (number == 13)
        || (number == 70)
        || (number == 152)
        || (number == 36)
        || (number == 81)
        || (number == 8)
        || (number == 99)
        || (number == 29)
        || (number == 38)
        || (number == 72)
        || (number == 122)
        || (number == 79 || number == 113)
        || (number == 107)
        || (number == 92)
        || (number == 140)
        || (number == 203)
    }

    pub open spec fn builds_latch(number: u16, prg_16k: usize, chr_8k: usize, mirroring: Mirroring, submapper: u8, m: Mapper) -> bool {
        if number == 13 { m == Mapper::Cprom(Cprom { chr_bank: 0 }) }
        else if number == 70 { m == Mapper::Bandai74161(Bandai74161 { prg_16k: max1(prg_16k), prg_bank: 0, chr_bank: 0, enable_mirroring_control: false, mirroring: Mirroring::Vertical }) }
        else if number == 152 { m == Mapper::Bandai74161(Bandai74161 { prg_16k: max1(prg_16k), prg_bank: 0, chr_bank: 0, enable_mirroring_control: true, mirroring: Mirroring::Vertical }) }
        else if number == 36 { m == Mapper::Mapper36(Mapper36 { latch: 0, mirroring: Mirroring::Vertical }) }
        else if number == 81 { m == Mapper::Mapper81(Mapper81 { prg_16k: max1(prg_16k), addr_latch: 0, data_latch: 0 }) }
        else if number == 8 { m == Mapper::Mapper8(Mapper8 { latch: 0 }) }
        else if number == 99 { m == Mapper::Mapper99(Mapper99 { latch: 0, mirroring }) }
        else if number == 29 { m == Mapper::Mapper29(Mapper29 { prg_16k: max1(prg_16k), latch: 0 }) }
        else if number == 38 { m == Mapper::UnlPci556(UnlPci556 { prg_bank: 0, chr_bank: 0, mirroring }) }
        else if number == 72 { m == Mapper::Mapper72(Mapper72 { prg_16k: max1(prg_16k), prg_bank: 0, chr_bank: 0, mirroring }) }
        else if number == 122 { m == Mapper::Mapper122(Mapper122 { chr_bank0: 0, chr_bank1: 0, mirroring }) }
        else if number == 79 || number == 113 { m == Mapper::Mapper79(Mapper79 { prg_bank: 0, chr_bank: 0, mirroring }) }
        else if number == 107 { m == Mapper::Mapper107(Mapper107 { prg_bank: 0, chr_bank: 0, mirroring }) }
        else if number == 92 { m == Mapper::Mapper92(Mapper92 { prg_bank: 0, chr_bank: 0, mirroring }) }
        else if number == 140 { m == Mapper::JalecoJf11_14(JalecoJf11_14 { prg_bank: 0, chr_bank: 0, mirroring }) }
        else if number == 203 { m == Mapper::Mapper203(Mapper203 { prg_bank: 0, chr_bank: 0, mirroring }) }
        else { false }
    }

    /// The `latch` family's constructor: `None` for numbers it does not cover.
    pub fn build_latch(number: u16, prg_16k: usize, chr_8k: usize, mirroring: Mirroring, submapper: u8) -> (r: Option<Mapper>)
        requires prg_16k <= MAX_PRG_16K, chr_8k <= MAX_CHR_8K,
        ensures
            Mapper::supported_latch(number) ==> (r matches Some(m) && Mapper::builds_latch(number, prg_16k, chr_8k, mirroring, submapper, m) && m.wf()),
            !Mapper::supported_latch(number) ==> r is None,
    {
        if number == 13 {
            Some(Mapper::Cprom(Cprom::new()))
        } else if number == 70 {
            Some(Mapper::Bandai74161(Bandai74161::new(prg_16k, false)))
        } else if number == 152 {
            Some(Mapper::Bandai74161(Bandai74161::new(prg_16k, true)))
        } else if number == 36 {
            Some(Mapper::Mapper36(Mapper36::new()))
        } else if number == 81 {
            Some(Mapper::Mapper81(Mapper81::new(prg_16k)))
        } else if number == 8 {
            Some(Mapper::Mapper8(Mapper8::new()))
        } else if number == 99 {
            Some(Mapper::Mapper99(Mapper99::new(mirroring)))
        } else if number == 29 {
            Some(Mapper::Mapper29(Mapper29::new(prg_16k)))
        } else if number == 38 {
            Some(Mapper::UnlPci556(UnlPci556::new(mirroring)))
        } else if number == 72 {
            Some(Mapper::Mapper72(Mapper72::new(prg_16k, mirroring)))
        } else if number == 122 {
            Some(Mapper::Mapper122(Mapper122::new(mirroring)))
        } else if number == 79 || number == 113 {
            Some(Mapper::Mapper79(Mapper79::new(mirroring)))
        } else if number == 107 {
            Some(Mapper::Mapper107(Mapper107::new(mirroring)))
        } else if number == 92 {
            Some(Mapper::Mapper92(Mapper92::new(mirroring)))
        } else if number == 140 {
            Some(Mapper::JalecoJf11_14(JalecoJf11_14::new(mirroring)))
        } else if number == 203 {
            Some(Mapper::Mapper203(Mapper203::new(mirroring)))
        } else {
            None
        }
    }

    /// Is there a board of the `discrete` family for this mapper number?
    pub open spec fn supported_discrete(number: u16) -> bool {
        (number == 185)
        || (number == 181)
        || (number == 188)
        || (number == 193)
        || (number == 186)
        || (number == 218)
    }

    pub open spec fn builds_discrete(number: u16, prg_16k: usize, chr_8k: usize, mirroring: Mirroring, submapper: u8, m: Mapper) -> bool {
        if number == 185 { m == Mapper::Mapper185(Mapper185 { prg_16k: max1(prg_16k), variant: CnromProtectVariant::Mapper185, datareg: 0, mirroring }) }
        else if number == 181 { m == Mapper::Mapper185(Mapper185 { prg_16k: max1(prg_16k), variant: CnromProtectVariant::Mapper181, datareg: 0, mirroring }) }
        else if number == 188 { m == Mapper::Mapper188(Mapper188 { prg_16k: max1(prg_16k), latch: 0 }) }
        else if number == 193 { m matches Mapper::Mapper193(x) && x.regs@ == seq![0u8, 0, 0, 0] && x.mirroring == mirroring }
        else if number == 186 { m matches Mapper::Mapper186(x) && x.fresh(prg_16k) }
        else if number == 218 { m matches Mapper::Mapper218(x) && x.fresh(mirroring) }
        else { false }
    }

    /// The `discrete` family's constructor: `None` for numbers it does not cover.
    pub fn build_discrete(number: u16, prg_16k: usize, chr_8k: usize, mirroring: Mirroring, submapper: u8) -> (r: Option<Mapper>)
        requires prg_16k <= MAX_PRG_16K, chr_8k <= MAX_CHR_8K,
        ensures
            Mapper::supported_discrete(number) ==> (r matches Some(m) && Mapper::builds_discrete(number, prg_16k, chr_8k, mirroring, submapper, m) && m.wf()),
            !Mapper::supported_discrete(number) ==> r is None,
    {
        if number == 185 {
            Some(Mapper::Mapper185(Mapper185::new(prg_16k, mirroring)))
        } else if number == 181 {
            Some(Mapper::Mapper185(Mapper185::new_181(prg_16k, mirroring)))
        } else if number == 188 {
            Some(Mapper::Mapper188(Mapper188::new(prg_16k)))
        } else if number == 193 {
            Some(Mapper::Mapper193(Mapper193::new(mirroring)))
        } else if number == 186 {
            Some(Mapper::Mapper186(Mapper186::new(prg_16k)))
        } else if number == 218 {
            Some(Mapper::Mapper218(Mapper218::new(mirroring)))
        } else {
            None
        }
    }

    /// Is there a board of the `ave` family for this mapper number?
    pub open spec fn supported_ave(number: u16) -> bool {
        (number == 34)
        || (number == 34)
    }

    pub open spec fn builds_ave(number: u16, prg_16k: usize, chr_8k: usize, mirroring: Mirroring, submapper: u8, m: Mapper) -> bool {
        if number == 34 && (submapper == 2 || (submapper != 1 && chr_8k == 0)) { m == Mapper::Bnrom(Bnrom { prg_32k: prg_32k_of(prg_16k), bank: 0, mirroring }) }
        else if number == 34 { m == Mapper::Nina01(Nina01 { prg_bank: 0, chr_bank0: 0, chr_bank1: 1, mirroring }) }
        else { false }
    }

    /// The `ave` family's constructor: `None` for numbers it does not cover.
    pub fn build_ave(number: u16, prg_16k: usize, chr_8k: usize, mirroring: Mirroring, submapper: u8) -> (r: Option<Mapper>)
        requires prg_16k <= MAX_PRG_16K, chr_8k <= MAX_CHR_8K,
        ensures
            Mapper::supported_ave(number) ==> (r matches Some(m) && Mapper::builds_ave(number, prg_16k, chr_8k, mirroring, submapper, m) && m.wf()),
            !Mapper::supported_ave(number) ==> r is None,
    {
        if number == 34 && (submapper == 2 || (submapper != 1 && chr_8k == 0)) {
            Some(Mapper::Bnrom(Bnrom::new(prg_16k, mirroring)))
        } else if number == 34 {
            Some(Mapper::Nina01(Nina01::new(mirroring)))
        } else {
            None
        }
    }

    /// Is there a board of the `sachen` family for this mapper number?
    pub open spec fn supported_sachen(number: u16) -> bool {
        (number == 133)
        || (number == 146)
        || (number == 148)
        || (number == 149)
        || (number == 137)
        || (number == 141)
        || (number == 150)
        || (number == 243)
    }

    pub open spec fn builds_sachen(number: u16, prg_16k: usize, chr_8k: usize, mirroring: Mirroring, submapper: u8, m: Mapper) -> bool {
        if number == 133 { m == Mapper::Sachen133(Sachen133 { prg_32k: prg_32k_of(prg_16k), prg_bank: 0, chr_bank: 0, mirroring }) }
        else if number == 146 { m == Mapper::SachenSa0161m(SachenSa0161m { prg_bank: 0, chr_bank: 0, mirroring, high_writes: false }) }
        else if number == 148 { m == Mapper::SachenSa0161m(SachenSa0161m { prg_bank: 0, chr_bank: 0, mirroring, high_writes: true }) }
        else if number == 149 { m == Mapper::Sachen149(Sachen149 { chr_bank: 0, mirroring }) }
        else if number == 137 { m matches Mapper::Sachen8259(x) && x.fresh(prg_16k, chr_8k, Sachen8259Variant::Mapper137D) }
        else if number == 141 { m matches Mapper::Sachen8259(x) && x.fresh(prg_16k, chr_8k, Sachen8259Variant::Mapper141A) }
        else if number == 150 { m matches Mapper::Sachen74Ls374N(x) && x.fresh(prg_16k, Sachen74Ls374NVariant::Mapper150) }
        else if number == 243 { m matches Mapper::Sachen74Ls374N(x) && x.fresh(prg_16k, Sachen74Ls374NVariant::Mapper243) }
        else { false }
    }

    /// The `sachen` family's constructor: `None` for numbers it does not cover.
    pub fn build_sachen(number: u16, prg_16k: usize, chr_8k: usize, mirroring: Mirroring, submapper: u8) -> (r: Option<Mapper>)
        requires prg_16k <= MAX_PRG_16K, chr_8k <= MAX_CHR_8K,
        ensures
            Mapper::supported_sachen(number) ==> (r matches Some(m) && Mapper::builds_sachen(number, prg_16k, chr_8k, mirroring, submapper, m) && m.wf()),
            !Mapper::supported_sachen(number) ==> r is None,
    {
        if number == 133 {
            Some(Mapper::Sachen133(Sachen133::new(prg_16k, mirroring)))
        } else if number == 146 {
            Some(Mapper::SachenSa0161m(SachenSa0161m::new(mirroring, false)))
        } else if number == 148 {
            Some(Mapper::SachenSa0161m(SachenSa0161m::new(mirroring, true)))
        } else if number == 149 {
            Some(Mapper::Sachen149(Sachen149::new(mirroring)))
        } else if number == 137 {
            Some(Mapper::Sachen8259(Sachen8259::new(prg_16k, chr_8k, Sachen8259Variant::Mapper137D)))
        } else if number == 141 {
            Some(Mapper::Sachen8259(Sachen8259::new(prg_16k, chr_8k, Sachen8259Variant::Mapper141A)))
        } else if number == 150 {
            Some(Mapper::Sachen74Ls374N(Sachen74Ls374N::new(prg_16k, Sachen74Ls374NVariant::Mapper150)))
        } else if number == 243 {
            Some(Mapper::Sachen74Ls374N(Sachen74Ls374N::new(prg_16k, Sachen74Ls374NVariant::Mapper243)))
        } else {
            None
        }
    }

    /// Is there a board of the `sunsoft` family for this mapper number?
    pub open spec fn supported_sunsoft(number: u16) -> bool {
        (number == 68)
        || (number == 184)
        || (number == 89)
    }

    pub open spec fn builds_sunsoft(number: u16, prg_16k: usize, chr_8k: usize, mirroring: Mirroring, submapper: u8, m: Mapper) -> bool {
        if number == 68 { m matches Mapper::Sunsoft4(x) && x.fresh(prg_16k, mirroring) }
        else if number == 184 { m == Mapper::Sunsoft184(Sunsoft184 { chr_bank0: 0, chr_bank1: 0x80, mirroring }) }
        else if number == 89 { m == Mapper::Sunsoft89(Sunsoft89 { prg_16k: max1(prg_16k), prg_bank: 0, chr_bank: 0, mirroring: Mirroring::SingleScreenLow }) }
        else { false }
    }

    /// The `sunsoft` family's constructor: `None` for numbers it does not cover.
    pub fn build_sunsoft(number: u16, prg_16k: usize, chr_8k: usize, mirroring: Mirroring, submapper: u8) -> (r: Option<Mapper>)
        requires prg_16k <= MAX_PRG_16K, chr_8k <= MAX_CHR_8K,
        ensures
            Mapper::supported_sunsoft(number) ==> (r matches Some(m) && Mapper::builds_sunsoft(number, prg_16k, chr_8k, mirroring, submapper, m) && m.wf()),
            !Mapper::supported_sunsoft(number) ==> r is None,
    {
        if number == 68 {
            Some(Mapper::Sunsoft4(Sunsoft4::new(prg_16k, mirroring)))
        } else if number == 184 {
            Some(Mapper::Sunsoft184(Sunsoft184::new(mirroring)))
        } else if number == 89 {
            Some(Mapper::Sunsoft89(Sunsoft89::new(prg_16k)))
        } else {
            None
        }
    }

    /// Is there a board of the `longtail` family for this mapper number?
    pub open spec fn supported_longtail(number: u16) -> bool {
        (number == 271)
        || (number == 285)
        || (number == 310)
        || (number == 319)
        || (number == 326)
    }

    pub open spec fn builds_longtail(number: u16, prg_16k: usize, chr_8k: usize, mirroring: Mirroring, submapper: u8, m: Mapper) -> bool {
        if number == 271 { m == Mapper::Mapper271(Mapper271 { latch: 0 }) }
        else if number == 285 { m == Mapper::Mapper285(Mapper285 { latch: 0, pad: 0, submapper }) }
        else if number == 310 { m matches Mapper::Mapper310(x) && x.reg_data@ == seq![0u8, 0] && x.reg_addr == 0 }
        else if number == 319 { m matches Mapper::Mapper319(x) && x.regs@ == seq![0u8, 0] && x.latch == 0 && x.pad == 0 }
        else if number == 326 { m matches Mapper::Mapper326(x) && x.fresh() }
        else { false }
    }

    /// The `longtail` family's constructor: `None` for numbers it does not cover.
    pub fn build_longtail(number: u16, prg_16k: usize, chr_8k: usize, mirroring: Mirroring, submapper: u8) -> (r: Option<Mapper>)
        requires prg_16k <= MAX_PRG_16K, chr_8k <= MAX_CHR_8K,
        ensures
            Mapper::supported_longtail(number) ==> (r matches Some(m) && Mapper::builds_longtail(number, prg_16k, chr_8k, mirroring, submapper, m) && m.wf()),
            !Mapper::supported_longtail(number) ==> r is None,
    {
        if number == 271 {
            Some(Mapper::Mapper271(Mapper271::new()))
        } else if number == 285 {
            Some(Mapper::Mapper285(Mapper285::new(submapper)))
        } else if number == 310 {
            Some(Mapper::Mapper310(Mapper310::new()))
        } else if number == 319 {
            Some(Mapper::Mapper319(Mapper319::new()))
        } else if number == 326 {
            Some(Mapper::Mapper326(Mapper326::new()))
        } else {
            None
        }
    }

    /// Is there a board of the `opencorp` family for this mapper number?
    pub open spec fn supported_opencorp(number: u16) -> bool {
        (number == 156)
    }

    pub open spec fn builds_opencorp(number: u16, prg_16k: usize, chr_8k: usize, mirroring: Mirroring, submapper: u8, m: Mapper) -> bool {
        if number == 156 { m matches Mapper::Mapper156(x) && x.prg_16k_total == max1(prg_16k) && x.cleared() }
        else { false }
    }

    /// The `opencorp` family's constructor: `None` for numbers it does not cover.
    pub fn build_opencorp(number: u16, prg_16k: usize, chr_8k: usize, mirroring: Mirroring, submapper: u8) -> (r: Option<Mapper>)
        requires prg_16k <= MAX_PRG_16K, chr_8k <= MAX_CHR_8K,
        ensures
            Mapper::supported_opencorp(number) ==> (r matches Some(m) && Mapper::builds_opencorp(number, prg_16k, chr_8k, mirroring, submapper, m) && m.wf()),
            !Mapper::supported_opencorp(number) ==> r is None,
    {
        if number == 156 {
            Some(Mapper::Mapper156(Mapper156::new(prg_16k)))
        } else {
            None
        }
    }

    /// Is there a board of the `subor` family for this mapper number?
    pub open spec fn supported_subor(number: u16) -> bool {
        (number == 166)
        || (number == 167)
    }

    pub open spec fn builds_subor(number: u16, prg_16k: usize, chr_8k: usize, mirroring: Mirroring, submapper: u8, m: Mapper) -> bool {
        if number == 166 { m matches Mapper::Subor166(x) && x.regs@ == seq![0u8, 0, 0, 0] && x.variant == SuborVariant::Mapper166 }
        else if number == 167 { m matches Mapper::Subor166(x) && x.regs@ == seq![0u8, 0, 0, 0] && x.variant == SuborVariant::Mapper167 }
        else { false }
    }

    /// The `subor` family's constructor: `None` for numbers it does not cover.
    pub fn build_subor(number: u16, prg_16k: usize, chr_8k: usize, mirroring: Mirroring, submapper: u8) -> (r: Option<Mapper>)
        requires prg_16k <= MAX_PRG_16K, chr_8k <= MAX_CHR_8K,
        ensures
            Mapper::supported_subor(number) ==> (r matches Some(m) && Mapper::builds_subor(number, prg_16k, chr_8k, mirroring, submapper, m) && m.wf()),
            !Mapper::supported_subor(number) ==> r is None,
    {
        if number == 166 {
            Some(Mapper::Subor166(Subor166::new(SuborVariant::Mapper166)))
        } else if number == 167 {
            Some(Mapper::Subor166(Subor166::new(SuborVariant::Mapper167)))
        } else {
            None
        }
    }

    /// Is there a board of the `nanjing` family for this mapper number?
    pub open spec fn supported_nanjing(number: u16) -> bool {
        (number == 162)
        || (number == 163)
    }

    pub open spec fn builds_nanjing(number: u16, prg_16k: usize, chr_8k: usize, mirroring: Mirroring, submapper: u8, m: Mapper) -> bool {
        if number == 162 { m matches Mapper::NanjingMapper(x) && x.fresh(prg_16k, NanjingVariant::Mapper162) }
        else if number == 163 { m matches Mapper::NanjingMapper(x) && x.fresh(prg_16k, NanjingVariant::Mapper163) }
        else { false }
    }

    /// The `nanjing` family's constructor: `None` for numbers it does not cover.
    pub fn build_nanjing(number: u16, prg_16k: usize, chr_8k: usize, mirroring: Mirroring, submapper: u8) -> (r: Option<Mapper>)
        requires prg_16k <= MAX_PRG_16K, chr_8k <= MAX_CHR_8K,
        ensures
            Mapper::supported_nanjing(number) ==> (r matches Some(m) && Mapper::builds_nanjing(number, prg_16k, chr_8k, mirroring, submapper, m) && m.wf()),
            !Mapper::supported_nanjing(number) ==> r is None,
    {
        if number == 162 {
            Some(Mapper::NanjingMapper(NanjingMapper::new(prg_16k, NanjingVariant::Mapper162)))
        } else if number == 163 {
            Some(Mapper::NanjingMapper(NanjingMapper::new(prg_16k, NanjingVariant::Mapper163)))
        } else {
            None
        }
    }

    /// Is there a board of the `ntdec` family for this mapper number?
    pub open spec fn supported_ntdec(number: u16) -> bool {
        (number == 112)
        || (number == 298)
    }

    pub open spec fn builds_ntdec(number: u16, prg_16k: usize, chr_8k: usize, mirroring: Mirroring, submapper: u8, m: Mapper) -> bool {
        if number == 112 { m matches Mapper::Ntdec112(x) && x.fresh(prg_16k) }
        else if number == 298 { m matches Mapper::Tf1201(x) && x.prg_8k_total == (if prg_16k * 2 < 2 { 2 } else { prg_16k * 2 }) && x.chr_1k_total == (if chr_8k * 8 < 8 { 8 } else { chr_8k * 8 }) && x.cleared() }
        else { false }
    }

    /// The `ntdec` family's constructor: `None` for numbers it does not cover.
    pub fn build_ntdec(number: u16, prg_16k: usize, chr_8k: usize, mirroring: Mirroring, submapper: u8) -> (r: Option<Mapper>)
        requires prg_16k <= MAX_PRG_16K, chr_8k <= MAX_CHR_8K,
        ensures
            Mapper::supported_ntdec(number) ==> (r matches Some(m) && Mapper::builds_ntdec(number, prg_16k, chr_8k, mirroring, submapper, m) && m.wf()),
            !Mapper::supported_ntdec(number) ==> r is None,
    {
        if number == 112 {
            Some(Mapper::Ntdec112(Ntdec112::new(prg_16k)))
        } else if number == 298 {
            Some(Mapper::Tf1201(Tf1201::new(prg_16k, chr_8k)))
        } else {
            None
        }
    }

    /// Is there a board of the `txc` family for this mapper number?
    pub open spec fn supported_txc(number: u16) -> bool {
        (number == 132)
        || (number == 136)
        || (number == 147)
        || (number == 172)
        || (number == 173)
    }

    pub open spec fn builds_txc(number: u16, prg_16k: usize, chr_8k: usize, mirroring: Mirroring, submapper: u8, m: Mapper) -> bool {
        if number == 132 { m matches Mapper::TxcMapper(x) && x.fresh(prg_16k, chr_8k, TxcVariant::Mapper132) }
        else if number == 136 { m matches Mapper::TxcMapper(x) && x.fresh(prg_16k, chr_8k, TxcVariant::Mapper136) }
        else if number == 147 { m matches Mapper::TxcMapper(x) && x.fresh(prg_16k, chr_8k, TxcVariant::Mapper147) }
        else if number == 172 { m matches Mapper::TxcMapper(x) && x.fresh(prg_16k, chr_8k, TxcVariant::Mapper172) }
        else if number == 173 { m matches Mapper::TxcMapper(x) && x.fresh(prg_16k, chr_8k, TxcVariant::Mapper173) }
        else { false }
    }

    /// The `txc` family's constructor: `None` for numbers it does not cover.
    pub fn build_txc(number: u16, prg_16k: usize, chr_8k: usize, mirroring: Mirroring, submapper: u8) -> (r: Option<Mapper>)
        requires prg_16k <= MAX_PRG_16K, chr_8k <= MAX_CHR_8K,
        ensures
            Mapper::supported_txc(number) ==> (r matches Some(m) && Mapper::builds_txc(number, prg_16k, chr_8k, mirroring, submapper, m) && m.wf()),
            !Mapper::supported_txc(number) ==> r is None,
    {
        if number == 132 {
            Some(Mapper::TxcMapper(TxcMapper::new(prg_16k, chr_8k, TxcVariant::Mapper132)))
        } else if number == 136 {
            Some(Mapper::TxcMapper(TxcMapper::new(prg_16k, chr_8k, TxcVariant::Mapper136)))
        } else if number == 147 {
            Some(Mapper::TxcMapper(TxcMapper::new(prg_16k, chr_8k, TxcVariant::Mapper147)))
        } else if number == 172 {
            Some(Mapper::TxcMapper(TxcMapper::new(prg_16k, chr_8k, TxcVariant::Mapper172)))
        } else if number == 173 {
            Some(Mapper::TxcMapper(TxcMapper::new(prg_16k, chr_8k, TxcVariant::Mapper173)))
        } else {
            None
        }
    }

    /// Is there a board of the `namco` family for this mapper number?
    pub open spec fn supported_namco(number: u16) -> bool {
        (number == 88)
        || (number == 95)
        || (number == 206)
        || (number == 154)
    }

    pub open spec fn builds_namco(number: u16, prg_16k: usize, chr_8k: usize, mirroring: Mirroring, submapper: u8, m: Mapper) -> bool {
        if number == 88 { m matches Mapper::Namco118(x) && x.fresh(prg_16k, mirroring) }
        else if number == 95 { m matches Mapper::Namco108Mapper95(x) && x.fresh(prg_16k) }
        else if number == 206 { m matches Mapper::Namco108Mapper206(x) && x.fresh(prg_16k, mirroring) }
        else if number == 154 { m matches Mapper::Namco108Mapper154(x) && x.inner.fresh(prg_16k, Mirroring::SingleScreenLow) }
        else { false }
    }

    /// The `namco` family's constructor: `None` for numbers it does not cover.
    pub fn build_namco(number: u16, prg_16k: usize, chr_8k: usize, mirroring: Mirroring, submapper: u8) -> (r: Option<Mapper>)
        requires prg_16k <= MAX_PRG_16K, chr_8k <= MAX_CHR_8K,
        ensures
            Mapper::supported_namco(number) ==> (r matches Some(m) && Mapper::builds_namco(number, prg_16k, chr_8k, mirroring, submapper, m) && m.wf()),
            !Mapper::supported_namco(number) ==> r is None,
    {
        if number == 88 {
            Some(Mapper::Namco118(Namco118::new(prg_16k, mirroring)))
        } else if number == 95 {
            Some(Mapper::Namco108Mapper95(Namco108Mapper95::new(prg_16k)))
        } else if number == 206 {
            Some(Mapper::Namco108Mapper206(Namco108Mapper206::new(prg_16k, mirroring)))
        } else if number == 154 {
            Some(Mapper::Namco108Mapper154(Namco108Mapper154::new(prg_16k)))
        } else {
            None
        }
    }

    /// Is there a board of the `special` family for this mapper number?
    pub open spec fn supported_special(number: u16) -> bool {
        (number == 103)
        || (number == 120)
        || (number == 104)
        || (number == 108)
        || (number == 190)
        || (number == 168)
        || (number == 170)
        || (number == 177)
        || (number == 230)
        || (number == 233)
        || (number == 175)
        || (number == 234)
    }

    pub open spec fn builds_special(number: u16, prg_16k: usize, chr_8k: usize, mirroring: Mirroring, submapper: u8, m: Mapper) -> bool {
        if number == 103 { m == Mapper::Mapper103(Mapper103 { prg_8k_total: fds_prg_8k_of(prg_16k), low_prg_bank: 0, prg_ram_disabled: false, mirroring }) }
        else if number == 120 { m == Mapper::Mapper120(Mapper120 { low_prg_bank: 0, mirroring }) }
        else if number == 104 { m matches Mapper::Mapper104(x) && x.prg@ == seq![0u8, 0x0F] }
        else if number == 108 { m == Mapper::Mapper108(Mapper108 { prg_8k_total: fds_prg_8k_of(prg_16k), low_prg_bank: 0, mirroring }) }
        else if number == 190 { m matches Mapper::Mapper190(x) && x.prg_16k_total == max1(prg_16k) && x.prg_bank == 0 && x.chr_2k@ == seq![0u8, 0, 0, 0] }
        else if number == 168 { m matches Mapper::Mapper168(x) && x.fresh(prg_16k, mirroring) }
        else if number == 170 { m == Mapper::Mapper170(Mapper170 { reg: 0, mirroring }) }
        else if number == 177 { m == Mapper::Mapper177(Mapper177 { reg: 0 }) }
        else if number == 230 { m matches Mapper::Mapper230(x) && x.contra() }
        else if number == 233 { m matches Mapper::Mapper233(x) && x.regs@ == seq![0u8, 0] && x.reset_bit == 0 && x.synced() }
        else if number == 175 { m == Mapper::Mapper175(Mapper175 { reg: 0, committed_prg: 0, delay: false, mirroring_reg: 0 }) }
        else if number == 234 { m matches Mapper::Mapper234(x) && x.regs@ == seq![0u8, 0] }
        else { false }
    }

    /// The `special` family's constructor: `None` for numbers it does not cover.
    pub fn build_special(number: u16, prg_16k: usize, chr_8k: usize, mirroring: Mirroring, submapper: u8) -> (r: Option<Mapper>)
        requires prg_16k <= MAX_PRG_16K, chr_8k <= MAX_CHR_8K,
        ensures
            Mapper::supported_special(number) ==> (r matches Some(m) && Mapper::builds_special(number, prg_16k, chr_8k, mirroring, submapper, m) && m.wf()),
            !Mapper::supported_special(number) ==> r is None,
    {
        if number == 103 {
            Some(Mapper::Mapper103(Mapper103::new(prg_16k, mirroring)))
        } else if number == 120 {
            Some(Mapper::Mapper120(Mapper120::new(mirroring)))
        } else if number == 104 {
            Some(Mapper::Mapper104(Mapper104::new(mirroring)))
        } else if number == 108 {
            Some(Mapper::Mapper108(Mapper108::new(prg_16k, mirroring)))
        } else if number == 190 {
            Some(Mapper::Mapper190(Mapper190::new(prg_16k)))
        } else if number == 168 {
            Some(Mapper::Mapper168(Mapper168::new(prg_16k, mirroring)))
        } else if number == 170 {
            Some(Mapper::Mapper170(Mapper170::new(mirroring)))
        } else if number == 177 {
            Some(Mapper::Mapper177(Mapper177::new()))
        } else if number == 230 {
            Some(Mapper::Mapper230(Mapper230::new()))
        } else if number == 233 {
            Some(Mapper::Mapper233(Mapper233::new()))
        } else if number == 175 {
            Some(Mapper::Mapper175(Mapper175::new()))
        } else if number == 234 {
            Some(Mapper::Mapper234(Mapper234::new()))
        } else {
            None
        }
    }

    /// Is there a board of the `sl12` family for this mapper number?
    pub open spec fn supported_sl12(number: u16) -> bool {
        (number == 116)
    }

    pub open spec fn builds_sl12(number: u16, prg_16k: usize, chr_8k: usize, mirroring: Mirroring, submapper: u8, m: Mapper) -> bool {
        if number == 116 { m matches Mapper::Mapper116(x) && crate::mapper::sl12::mapper116_fresh(x, prg_16k, chr_8k) }
        else { false }
    }

    /// The `sl12` family's constructor: `None` for numbers it does not cover.
    pub fn build_sl12(number: u16, prg_16k: usize, chr_8k: usize, mirroring: Mirroring, submapper: u8) -> (r: Option<Mapper>)
        requires prg_16k <= MAX_PRG_16K, chr_8k <= MAX_CHR_8K,
        ensures
            Mapper::supported_sl12(number) ==> (r matches Some(m) && Mapper::builds_sl12(number, prg_16k, chr_8k, mirroring, submapper, m) && m.wf()),
            !Mapper::supported_sl12(number) ==> r is None,
    {
        if number == 116 {
            Some(Mapper::Mapper116(Mapper116::new(prg_16k, chr_8k)))
        } else {
            None
        }
    }

    /// Is there a board of the `taito` family for this mapper number?
    pub open spec fn supported_taito(number: u16) -> bool {
        (number == 33)
        || (number == 80)
        || (number == 207)
        || (number == 82)
    }

    pub open spec fn builds_taito(number: u16, prg_16k: usize, chr_8k: usize, mirroring: Mirroring, submapper: u8, m: Mapper) -> bool {
        if number == 33 { m matches Mapper::TaitoTc0190(x) && x.fresh(prg_16k, mirroring) }
        else if number == 80 { m matches Mapper::TaitoX1005(x) && x.fresh(prg_16k, false) }
        else if number == 207 { m matches Mapper::TaitoX1005(x) && x.fresh(prg_16k, true) }
        else if number == 82 { m matches Mapper::TaitoX1017(x) && x.fresh(prg_16k) }
        else { false }
    }

    /// The `taito` family's constructor: `None` for numbers it does not cover.
    pub fn build_taito(number: u16, prg_16k: usize, chr_8k: usize, mirroring: Mirroring, submapper: u8) -> (r: Option<Mapper>)
        requires prg_16k <= MAX_PRG_16K, chr_8k <= MAX_CHR_8K,
        ensures
            Mapper::supported_taito(number) ==> (r matches Some(m) && Mapper::builds_taito(number, prg_16k, chr_8k, mirroring, submapper, m) && m.wf()),
            !Mapper::supported_taito(number) ==> r is None,
    {
        if number == 33 {
            Some(Mapper::TaitoTc0190(TaitoTc0190::new(prg_16k, mirroring)))
        } else if number == 80 {
            Some(Mapper::TaitoX1005(TaitoX1005::new(prg_16k)))
        } else if number == 207 {
            Some(Mapper::TaitoX1005(TaitoX1005::new_207(prg_16k)))
        } else if number == 82 {
            Some(Mapper::TaitoX1017(TaitoX1017::new(prg_16k)))
        } else {
            None
        }
    }

    /// Is there a board of the `multicart` family for this mapper number?
    pub open spec fn supported_multicart(number: u16) -> bool {
        (number == 228)
        || (number == 58)
        || (number == 59)
        || (number == 61)
        || (number == 62)
        || (number == 216)
        || (number == 174)
        || (number == 200)
        || (number == 202)
        || (number == 204)
        || (number == 227)
        || (number == 231)
        || (number == 242)
        || (number == 239)
        || (number == 213)
        || (number == 214)
        || (number == 225)
        || (number == 229)
        || (number == 201)
        || (number == 217)
        || (number == 255)
        || (number == 221)
    }

    pub open spec fn builds_multicart(number: u16, prg_16k: usize, chr_8k: usize, mirroring: Mirroring, submapper: u8, m: Mapper) -> bool {
        if number == 228 { m matches Mapper::ActionEnterprises(x) && x.synced(0x8000, 0) && x.nibble_ram@ == seq![0u8, 0, 0, 0] }
        else if number == 58 { m matches Mapper::AddrLatch16k(x) && x.fresh(AddrLatchVariant::Mapper58, Mirroring::Vertical, 0) }
        else if number == 59 { m matches Mapper::AddrLatch16k(x) && x.fresh(AddrLatchVariant::Mapper59, Mirroring::Vertical, 0) }
        else if number == 61 { m matches Mapper::AddrLatch16k(x) && x.fresh(AddrLatchVariant::Mapper61, Mirroring::Vertical, 0) }
        else if number == 62 { m matches Mapper::AddrLatch16k(x) && x.fresh(AddrLatchVariant::Mapper62, Mirroring::Vertical, 0) }
        else if number == 216 { m matches Mapper::AddrLatch16k(x) && x.fresh(AddrLatchVariant::Mapper216, Mirroring::Vertical, 0) }
        else if number == 174 { m matches Mapper::AddrLatch16k(x) && x.fresh(AddrLatchVariant::Mapper174, Mirroring::Vertical, 0) }
        else if number == 200 { m matches Mapper::AddrLatch16k(x) && x.fresh(AddrLatchVariant::Mapper200, Mirroring::Vertical, 0) }
        else if number == 202 { m matches Mapper::AddrLatch16k(x) && x.fresh(AddrLatchVariant::Mapper202, Mirroring::Vertical, 0) }
        else if number == 204 { m matches Mapper::AddrLatch16k(x) && x.fresh(AddrLatchVariant::Mapper204, Mirroring::Vertical, 0) }
        else if number == 227 { m matches Mapper::AddrLatch16k(x) && x.fresh(AddrLatchVariant::Mapper227, Mirroring::Vertical, 0) }
        else if number == 231 { m matches Mapper::AddrLatch16k(x) && x.fresh(AddrLatchVariant::Mapper231, Mirroring::Vertical, 0) }
        else if number == 242 { m matches Mapper::AddrLatch16k(x) && x.fresh(AddrLatchVariant::Mapper242, Mirroring::Vertical, 0) }
        else if number == 239 { m matches Mapper::AddrLatch16k(x) && x.fresh(AddrLatchVariant::Mapper239, Mirroring::Vertical, 0) }
        else if number == 213 { m matches Mapper::AddrLatch16k(x) && x.fresh(AddrLatchVariant::Mapper213, Mirroring::Vertical, 0) }
        else if number == 214 { m matches Mapper::AddrLatch16k(x) && x.fresh(AddrLatchVariant::Mapper214, Mirroring::Vertical, 0) }
        else if number == 225 { m matches Mapper::AddrLatch16k(x) && x.fresh(AddrLatchVariant::Mapper225, Mirroring::Vertical, 0) }
        else if number == 229 { m matches Mapper::AddrLatch16k(x) && x.fresh(AddrLatchVariant::Mapper229, Mirroring::Vertical, 0) }
        else if number == 201 { m matches Mapper::AddrLatch16k(x) && x.fresh(AddrLatchVariant::Mapper201, Mirroring::Vertical, 0) }
        else if number == 217 { m matches Mapper::AddrLatch16k(x) && x.fresh(AddrLatchVariant::Mapper217, Mirroring::Vertical, 0) }
        else if number == 255 { m matches Mapper::AddrLatch16k(x) && x.fresh(AddrLatchVariant::Mapper255, Mirroring::Vertical, 0) }
        else if number == 221 { m matches Mapper::AddrLatch16k(x) && x.fresh(AddrLatchVariant::Mapper221 { submapper }, Mirroring::Vertical, max1(prg_16k)) }
        else { false }
    }

    /// The `multicart` family's constructor: `None` for numbers it does not cover.
    pub fn build_multicart(number: u16, prg_16k: usize, chr_8k: usize, mirroring: Mirroring, submapper: u8) -> (r: Option<Mapper>)
        requires prg_16k <= MAX_PRG_16K, chr_8k <= MAX_CHR_8K,
        ensures
            Mapper::supported_multicart(number) ==> (r matches Some(m) && Mapper::builds_multicart(number, prg_16k, chr_8k, mirroring, submapper, m) && m.wf()),
            !Mapper::supported_multicart(number) ==> r is None,
    {
        if number == 228 {
            Some(Mapper::ActionEnterprises(ActionEnterprises::new()))
        } else if number == 58 {
            Some(Mapper::AddrLatch16k(AddrLatch16k::new(AddrLatchVariant::Mapper58)))
        } else if number == 59 {
            Some(Mapper::AddrLatch16k(AddrLatch16k::new(AddrLatchVariant::Mapper59)))
        } else if number == 61 {
            Some(Mapper::AddrLatch16k(AddrLatch16k::new(AddrLatchVariant::Mapper61)))
        } else if number == 62 {
            Some(Mapper::AddrLatch16k(AddrLatch16k::new(AddrLatchVariant::Mapper62)))
        } else if number == 216 {
            Some(Mapper::AddrLatch16k(AddrLatch16k::new(AddrLatchVariant::Mapper216)))
        } else if number == 174 {
            Some(Mapper::AddrLatch16k(AddrLatch16k::new(AddrLatchVariant::Mapper174)))
        } else if number == 200 {
            Some(Mapper::AddrLatch16k(AddrLatch16k::new(AddrLatchVariant::Mapper200)))
        } else if number == 202 {
            Some(Mapper::AddrLatch16k(AddrLatch16k::new(AddrLatchVariant::Mapper202)))
        } else if number == 204 {
            Some(Mapper::AddrLatch16k(AddrLatch16k::new(AddrLatchVariant::Mapper204)))
        } else if number == 227 {
            Some(Mapper::AddrLatch16k(AddrLatch16k::new(AddrLatchVariant::Mapper227)))
        } else if number == 231 {
            Some(Mapper::AddrLatch16k(AddrLatch16k::new(AddrLatchVariant::Mapper231)))
        } else if number == 242 {
            Some(Mapper::AddrLatch16k(AddrLatch16k::new(AddrLatchVariant::Mapper242)))
        } else if number == 239 {
            Some(Mapper::AddrLatch16k(AddrLatch16k::new(AddrLatchVariant::Mapper239)))
        } else if number == 213 {
            Some(Mapper::AddrLatch16k(AddrLatch16k::new(AddrLatchVariant::Mapper213)))
        } else if number == 214 {
            Some(Mapper::AddrLatch16k(AddrLatch16k::new(AddrLatchVariant::Mapper214)))
        } else if number == 225 {
            Some(Mapper::AddrLatch16k(AddrLatch16k::new(AddrLatchVariant::Mapper225)))
        } else if number == 229 {
            Some(Mapper::AddrLatch16k(AddrLatch16k::new(AddrLatchVariant::Mapper229)))
        } else if number == 201 {
            Some(Mapper::AddrLatch16k(AddrLatch16k::new(AddrLatchVariant::Mapper201)))
        } else if number == 217 {
            Some(Mapper::AddrLatch16k(AddrLatch16k::new(AddrLatchVariant::Mapper217)))
        } else if number == 255 {
            Some(Mapper::AddrLatch16k(AddrLatch16k::new(AddrLatchVariant::Mapper255)))
        } else if number == 221 {
            Some(Mapper::AddrLatch16k(AddrLatch16k::new_221(prg_16k, submapper)))
        } else {
            None
        }
    }

    /// Is there a board of the `bandai` family for this mapper number?
    pub open spec fn supported_bandai(number: u16) -> bool {
        (number == 16)
    }

    pub open spec fn builds_bandai(number: u16, prg_16k: usize, chr_8k: usize, mirroring: Mirroring, submapper: u8, m: Mapper) -> bool {
        if number == 16 { m matches Mapper::BandaiFcg(x) && x.fresh(prg_16k, chr_8k, submapper) }
        else { false }
    }

    /// The `bandai` family's constructor: `None` for numbers it does not cover.
    pub fn build_bandai(number: u16, prg_16k: usize, chr_8k: usize, mirroring: Mirroring, submapper: u8) -> (r: Option<Mapper>)
        requires prg_16k <= MAX_PRG_16K, chr_8k <= MAX_CHR_8K,
        ensures
            Mapper::supported_bandai(number) ==> (r matches Some(m) && Mapper::builds_bandai(number, prg_16k, chr_8k, mirroring, submapper, m) && m.wf()),
            !Mapper::supported_bandai(number) ==> r is None,
    {
        if number == 16 {
            Some(Mapper::BandaiFcg(BandaiFcg::new(prg_16k, chr_8k, submapper)))
        } else {
            None
        }
    }

    /// Is there a board of the `multicart2` family for this mapper number?
    pub open spec fn supported_multicart2(number: u16) -> bool {
        (number == 15)
        || (number == 28)
        || (number == 53)
        || (number == 51)
        || (number == 57)
        || (number == 63)
        || (number == 128)
        || (number == 226)
        || (number == 240)
        || (number == 241)
        || (number == 244)
        || (number == 246)
        || (number == 236)
        || (number == 237)
    }

    pub open spec fn builds_multicart2(number: u16, prg_16k: usize, chr_8k: usize, mirroring: Mirroring, submapper: u8, m: Mapper) -> bool {
        if number == 15 { m matches Mapper::Mapper15(x) && x == (Mapper15 { prg_8k: [0u16, 0, 0, 0], mirroring: Mirroring::Vertical }).written(0x8000, 0) }
        else if number == 28 { m == Mapper::Action53(Action53 { prg_mask_16k: (if prg_16k == 0 { 0 } else { prg_16k - 1 }) as usize, reg: 0, chr: 0, prg: 15, mode: 0, outer: 63 }) }
        else if number == 53 { m == Mapper::Mapper53(Mapper53 { cmd0: 0, cmd1: 0 }) }
        else if number == 51 { m == Mapper::Mapper51(Mapper51 { bank: 0, mode: 2 }) }
        else if number == 57 { m matches Mapper::Mapper57(x) && x.regs@ == seq![0u8, 0] && x.mirroring == Mirroring::Vertical }
        else if number == 63 { m matches Mapper::Mapper63(x) && x.prg_16k == max1(prg_16k) && x.submapper == submapper && x.prg_pages@ == seq![0u16, 1] && !x.open_bus && x.mirroring == Mirroring::Vertical }
        else if number == 128 { m == Mapper::Mapper128(Mapper128 { outerbank: 0, innerbank: 0 }) }
        else if number == 226 { m matches Mapper::Mapper226(x) && x.regs@ == seq![0u8, 0] && x.prg_pages@ == seq![0u16, 1] && x.mirroring == Mirroring::Horizontal }
        else if number == 240 { m == Mapper::Mapper240(Mapper240 { prg_bank: 0, chr_bank: 0, mirroring }) }
        else if number == 241 { m == Mapper::Mapper241(Mapper241 { prg_bank: 0, mirroring }) }
        else if number == 244 { m == Mapper::Mapper244(Mapper244 { prg_bank: 0, chr_bank: 0, mirroring }) }
        else if number == 246 { m matches Mapper::Mapper246(x) && x.fresh(prg_16k, mirroring) }
        else if number == 236 { m matches Mapper::Mapper236(x) && x.regs@ == seq![0u8, 0] && x.dip == 0 && x.chr_ram_variant == (chr_8k == 0) }
        else if number == 237 { m matches Mapper::Mapper237(x) && x.regs@ == seq![0u8, 0] && x.dipswitch == 0 }
        else { false }
    }

    /// The `multicart2` family's constructor: `None` for numbers it does not cover.
    pub fn build_multicart2(number: u16, prg_16k: usize, chr_8k: usize, mirroring: Mirroring, submapper: u8) -> (r: Option<Mapper>)
        requires prg_16k <= MAX_PRG_16K, chr_8k <= MAX_CHR_8K,
        ensures
            Mapper::supported_multicart2(number) ==> (r matches Some(m) && Mapper::builds_multicart2(number, prg_16k, chr_8k, mirroring, submapper, m) && m.wf()),
            !Mapper::supported_multicart2(number) ==> r is None,
    {
        if number == 15 {
            Some(Mapper::Mapper15(Mapper15::new()))
        } else if number == 28 {
            Some(Mapper::Action53(Action53::new(prg_16k)))
        } else if number == 53 {
            Some(Mapper::Mapper53(Mapper53::new()))
        } else if number == 51 {
            Some(Mapper::Mapper51(Mapper51::new()))
        } else if number == 57 {
            Some(Mapper::Mapper57(Mapper57::new()))
        } else if number == 63 {
            Some(Mapper::Mapper63(Mapper63::new(prg_16k, submapper)))
        } else if number == 128 {
            Some(Mapper::Mapper128(Mapper128::new()))
        } else if number == 226 {
            Some(Mapper::Mapper226(Mapper226::new()))
        } else if number == 240 {
            Some(Mapper::Mapper240(Mapper240::new(mirroring)))
        } else if number == 241 {
            Some(Mapper::Mapper241(Mapper241::new(mirroring)))
        } else if number == 244 {
            Some(Mapper::Mapper244(Mapper244::new(mirroring)))
        } else if number == 246 {
            Some(Mapper::Mapper246(Mapper246::new(prg_16k, mirroring)))
        } else if number == 236 {
            Some(Mapper::Mapper236(Mapper236::new(chr_8k)))
        } else if number == 237 {
            Some(Mapper::Mapper237(Mapper237::new()))
        } else {
            None
        }
    }

    /// Is there a board of the `latch_boards` family for this mapper number?
    pub open spec fn supported_latch_boards(number: u16) -> bool {
        (number == 31)
        || (number == 96)
        || (number == 113)
        || (number == 41)
        || (number == 46)
        || (number == 151)
        || (number == 78)
        || (number == 87)
        || (number == 101)
        || (number == 86)
        || (number == 93)
        || (number == 94)
        || (number == 180)
    }

    pub open spec fn builds_latch_boards(number: u16, prg_16k: usize, chr_8k: usize, mirroring: Mirroring, submapper: u8, m: Mapper) -> bool {
        if number == 31 { m matches Mapper::Mapper31(x) && x.regs@ == seq![0u8, 0, 0, 0, 0, 0, 0, 0xFF] }
        else if number == 96 { m == Mapper::Mapper96(Mapper96 { reg: 0, ppu_latch: 0 }) }
        else if number == 113 { m == Mapper::Nina03_06(Nina03_06 { prg_bank: 0, chr_bank: 0, mirroring: Mirroring::Horizontal }) }
        else if number == 41 { m == Mapper::Caltron41(Caltron41 { prg_bank: 0, chr_bank: 0, mirroring: Mirroring::Vertical }) }
        else if number == 46 { m == Mapper::ColorDreams46(ColorDreams46 { outer: 0, inner: 0, mirroring }) }
        else if number == 151 { m matches Mapper::Mapper151(x) && x.prg_8k_total == max1((prg_16k * 2) as usize) && x.regs@ == seq![0u8, 0, 0, 0, 0, 0, 0, 0] && x.mirroring == mirroring }
        else if number == 78 { m == Mapper::JalecoJf16(JalecoJf16 { prg_16k: max1(prg_16k), prg_bank: 0, chr_bank: 0, submapper, mirroring: Mirroring::SingleScreenLow }) }
        else if number == 87 { m == Mapper::JalecoJfxx(JalecoJfxx { chr_bank: 0, ordered_bits: false, mirroring }) }
        else if number == 101 { m == Mapper::JalecoJfxx(JalecoJfxx { chr_bank: 0, ordered_bits: true, mirroring }) }
        else if number == 86 { m == Mapper::JalecoJf13(JalecoJf13 { prg_bank: 0, chr_bank: 0, mirroring }) }
        else if number == 93 { m == Mapper::UnromVariantMapper(UnromVariantMapper { prg_16k: max1(prg_16k), bank: 0, variant: UnromVariant::Sunsoft93, mirroring }) }
        else if number == 94 { m == Mapper::UnromVariantMapper(UnromVariantMapper { prg_16k: max1(prg_16k), bank: 0, variant: UnromVariant::Mapper94, mirroring }) }
        else if number == 180 { m == Mapper::UnromVariantMapper(UnromVariantMapper { prg_16k: max1(prg_16k), bank: 0, variant: UnromVariant::Mapper180, mirroring }) }
        else { false }
    }

    /// The `latch_boards` family's constructor: `None` for numbers it does not cover.
    pub fn build_latch_boards(number: u16, prg_16k: usize, chr_8k: usize, mirroring: Mirroring, submapper: u8) -> (r: Option<Mapper>)
        requires prg_16k <= MAX_PRG_16K, chr_8k <= MAX_CHR_8K,
        ensures
            Mapper::supported_latch_boards(number) ==> (r matches Some(m) && Mapper::builds_latch_boards(number, prg_16k, chr_8k, mirroring, submapper, m) && m.wf()),
            !Mapper::supported_latch_boards(number) ==> r is None,
    {
        if number == 31 {
            Some(Mapper::Mapper31(Mapper31::new()))
        } else if number == 96 {
            Some(Mapper::Mapper96(Mapper96::new()))
        } else if number == 113 {
            Some(Mapper::Nina03_06(Nina03_06::new()))
        } else if number == 41 {
            Some(Mapper::Caltron41(Caltron41::new()))
        } else if number == 46 {
            Some(Mapper::ColorDreams46(ColorDreams46::new(mirroring)))
        } else if number == 151 {
            Some(Mapper::Mapper151(Mapper151::new(prg_16k, mirroring)))
        } else if number == 78 {
            Some(Mapper::JalecoJf16(JalecoJf16::new(prg_16k, submapper)))
        } else if number == 87 {
            Some(Mapper::JalecoJfxx(JalecoJfxx::new(false, mirroring)))
        } else if number == 101 {
            Some(Mapper::JalecoJfxx(JalecoJfxx::new(true, mirroring)))
        } else if number == 86 {
            Some(Mapper::JalecoJf13(JalecoJf13::new(mirroring)))
        } else if number == 93 {
            Some(Mapper::UnromVariantMapper(UnromVariantMapper::new(prg_16k, UnromVariant::Sunsoft93, mirroring)))
        } else if number == 94 {
            Some(Mapper::UnromVariantMapper(UnromVariantMapper::new(prg_16k, UnromVariant::Mapper94, mirroring)))
        } else if number == 180 {
            Some(Mapper::UnromVariantMapper(UnromVariantMapper::new(prg_16k, UnromVariant::Mapper180, mirroring)))
        } else {
            None
        }
    }

    /// Is there a board of the `irem` family for this mapper number?
    pub open spec fn supported_irem(number: u16) -> bool {
        (number == 32)
        || (number == 77)
        || (number == 97)
    }

    pub open spec fn builds_irem(number: u16, prg_16k: usize, chr_8k: usize, mirroring: Mirroring, submapper: u8, m: Mapper) -> bool {
        if number == 32 { m matches Mapper::IremG101(x) && x.fresh(prg_16k, submapper, mirroring) }
        else if number == 77 { m matches Mapper::IremLrog017(x) && x.latch == 0 && x.mirroring == mirroring && x.chr_ram@ == Seq::new(0x1800, |i: int| 0u8) }
        else if number == 97 { m == Mapper::IremTamS1(IremTamS1 { prg_16k: max1(prg_16k), high_bank: 0, mirroring: Mirroring::SingleScreenLow }) }
        else { false }
    }

    /// The `irem` family's constructor: `None` for numbers it does not cover.
    pub fn build_irem(number: u16, prg_16k: usize, chr_8k: usize, mirroring: Mirroring, submapper: u8) -> (r: Option<Mapper>)
        requires prg_16k <= MAX_PRG_16K, chr_8k <= MAX_CHR_8K,
        ensures
            Mapper::supported_irem(number) ==> (r matches Some(m) && Mapper::builds_irem(number, prg_16k, chr_8k, mirroring, submapper, m) && m.wf()),
            !Mapper::supported_irem(number) ==> r is None,
    {
        if number == 32 {
            Some(Mapper::IremG101(IremG101::new(prg_16k, submapper, mirroring)))
        } else if number == 77 {
            Some(Mapper::IremLrog017(IremLrog017::new(mirroring)))
        } else if number == 97 {
            Some(Mapper::IremTamS1(IremTamS1::new(prg_16k)))
        } else {
            None
        }
    }

    /// Is there a board of the `konami` family for this mapper number?
    pub open spec fn supported_konami(number: u16) -> bool {
        (number == 75)
    }

    pub open spec fn builds_konami(number: u16, prg_16k: usize, chr_8k: usize, mirroring: Mirroring, submapper: u8, m: Mapper) -> bool {
        if number == 75 { m matches Mapper::Vrc1(x) && x.fresh(prg_16k) }
        else { false }
    }

    /// The `konami` family's constructor: `None` for numbers it does not cover.
    pub fn build_konami(number: u16, prg_16k: usize, chr_8k: usize, mirroring: Mirroring, submapper: u8) -> (r: Option<Mapper>)
        requires prg_16k <= MAX_PRG_16K, chr_8k <= MAX_CHR_8K,
        ensures
            Mapper::supported_konami(number) ==> (r matches Some(m) && Mapper::builds_konami(number, prg_16k, chr_8k, mirroring, submapper, m) && m.wf()),
            !Mapper::supported_konami(number) ==> r is None,
    {
        if number == 75 {
            Some(Mapper::Vrc1(Vrc1::new(prg_16k)))
        } else {
            None
        }
    }

    /// Is there a board of the `irq_boards` family for this mapper number?
    pub open spec fn supported_irq_boards(number: u16) -> bool {
        (number == 18)
        || (number == 40)
        || (number == 42)
        || (number == 50)
        || (number == 65)
        || (number == 67)
        || (number == 73)
        || (number == 117)
    }

    pub open spec fn builds_irq_boards(number: u16, prg_16k: usize, chr_8k: usize, mirroring: Mirroring, submapper: u8, m: Mapper) -> bool {
        if number == 18 { m matches Mapper::Mapper18(x) && x.fresh(prg_16k, chr_8k) }
        else if number == 40 { m == Mapper::Mapper40(Mapper40 { variable_prg_bank: 0, mirroring, irq_counter: 0, irq_pending: false }) }
        else if number == 42 { m == Mapper::Mapper42(Mapper42 { prg_8k_total: crate::mapper::irq_boards::at_least(prg_16k * 2, 4) as usize, low_prg_bank: 0, chr_bank: 0, mirroring, irq_counter: 0, irq_enabled: false, irq_pending: false }) }
        else if number == 50 { m == Mapper::Mapper50(Mapper50 { variable_prg_bank: 0, mirroring, irq_counter: 0, irq_enabled: false, irq_pending: false }) }
        else if number == 65 { m matches Mapper::Mapper65(x) && x.fresh(prg_16k, chr_8k) }
        else if number == 67 { m matches Mapper::Mapper67(x) && x.fresh(prg_16k, chr_8k, mirroring) }
        else if number == 73 { m == Mapper::Mapper73(Mapper73 { prg_16k_total: crate::mapper::irq_boards::at_least(prg_16k as int, 1) as usize, prg_bank: 0, mirroring, irq_reload: 0, irq_counter: 0, irq_enabled: false, irq_enable_on_ack: false, irq_small_counter: false, irq_pending: false }) }
        else if number == 117 { m matches Mapper::Mapper117(x) && x.fresh(prg_16k, chr_8k, mirroring) }
        else { false }
    }

    /// The `irq_boards` family's constructor: `None` for numbers it does not cover.
    pub fn build_irq_boards(number: u16, prg_16k: usize, chr_8k: usize, mirroring: Mirroring, submapper: u8) -> (r: Option<Mapper>)
        requires prg_16k <= MAX_PRG_16K, chr_8k <= MAX_CHR_8K,
        ensures
            Mapper::supported_irq_boards(number) ==> (r matches Some(m) && Mapper::builds_irq_boards(number, prg_16k, chr_8k, mirroring, submapper, m) && m.wf()),
            !Mapper::supported_irq_boards(number) ==> r is None,
    {
        if number == 18 {
            Some(Mapper::Mapper18(Mapper18::new(prg_16k, chr_8k)))
        } else if number == 40 {
            Some(Mapper::Mapper40(Mapper40::new(mirroring)))
        } else if number == 42 {
            Some(Mapper::Mapper42(Mapper42::new(prg_16k, mirroring)))
        } else if number == 50 {
            Some(Mapper::Mapper50(Mapper50::new(mirroring)))
        } else if number == 65 {
            Some(Mapper::Mapper65(Mapper65::new(prg_16k, chr_8k)))
        } else if number == 67 {
            Some(Mapper::Mapper67(Mapper67::new(prg_16k, chr_8k, mirroring)))
        } else if number == 73 {
            Some(Mapper::Mapper73(Mapper73::new(prg_16k, mirroring)))
        } else if number == 117 {
            Some(Mapper::Mapper117(Mapper117::new(prg_16k, chr_8k, mirroring)))
        } else {
            None
        }
    }

    /// Is there a board of the `unlicensed` family for this mapper number?
    pub open spec fn supported_unlicensed(number: u16) -> bool {
        (number == 60)
        || (number == 83)
        || (number == 183)
        || (number == 212)
        || (number == 222)
        || (number == 235)
    }

    pub open spec fn builds_unlicensed(number: u16, prg_16k: usize, chr_8k: usize, mirroring: Mirroring, submapper: u8, m: Mapper) -> bool {
        if number == 60 { m == Mapper::Mapper60(Mapper60 { game: 0, mirroring }) }
        else if number == 83 { m matches Mapper::Mapper83(x) && x.fresh(prg_16k, chr_8k) }
        else if number == 183 { m matches Mapper::Mapper183(x) && x.fresh(prg_16k, chr_8k) }
        else if number == 212 { m matches Mapper::Mapper212(x) && x.prg_pages@ == seq![0u8, 0] && x.chr_bank == 0 && x.mirroring == Mirroring::Vertical }
        else if number == 222 { m matches Mapper::Mapper222(x) && x.fresh(prg_16k, chr_8k) }
        else if number == 235 { m == Mapper::Mapper235(Mapper235 { prg_16k_total: crate::mapper::irq_boards::at_least(prg_16k as int, 1) as usize, cmdreg: 0, unrom: false, unrom_data: 0, open_bus_latched: false, mirroring: Mirroring::Vertical }) }
        else { false }
    }

    /// The `unlicensed` family's constructor: `None` for numbers it does not cover.
    pub fn build_unlicensed(number: u16, prg_16k: usize, chr_8k: usize, mirroring: Mirroring, submapper: u8) -> (r: Option<Mapper>)
        requires prg_16k <= MAX_PRG_16K, chr_8k <= MAX_CHR_8K,
        ensures
            Mapper::supported_unlicensed(number) ==> (r matches Some(m) && Mapper::builds_unlicensed(number, prg_16k, chr_8k, mirroring, submapper, m) && m.wf()),
            !Mapper::supported_unlicensed(number) ==> r is None,
    {
        if number == 60 {
            Some(Mapper::Mapper60(Mapper60::new(mirroring)))
        } else if number == 83 {
            Some(Mapper::Mapper83(Mapper83::new(prg_16k, chr_8k)))
        } else if number == 183 {
            Some(Mapper::Mapper183(Mapper183::new(prg_16k, chr_8k)))
        } else if number == 212 {
            Some(Mapper::Mapper212(Mapper212::new()))
        } else if number == 222 {
            Some(Mapper::Mapper222(Mapper222::new(prg_16k, chr_8k)))
        } else if number == 235 {
            Some(Mapper::Mapper235(Mapper235::new(prg_16k)))
        } else {
            None
        }
    }

    /// Is there a board of the `bootleg` family for this mapper number?
    pub open spec fn supported_bootleg(number: u16) -> bool {
        (number == 272)
        || (number == 330)
    }

    pub open spec fn builds_bootleg(number: u16, prg_16k: usize, chr_8k: usize, mirroring: Mirroring, submapper: u8, m: Mapper) -> bool {
        if number == 272 { m matches Mapper::Mapper272(x) && x.fresh(prg_16k, chr_8k) }
        else if number == 330 { m matches Mapper::Mapper330(x) && x.fresh(prg_16k, chr_8k) }
        else { false }
    }

    /// The `bootleg` family's constructor: `None` for numbers it does not cover.
    pub fn build_bootleg(number: u16, prg_16k: usize, chr_8k: usize, mirroring: Mirroring, submapper: u8) -> (r: Option<Mapper>)
        requires prg_16k <= MAX_PRG_16K, chr_8k <= MAX_CHR_8K,
        ensures
            Mapper::supported_bootleg(number) ==> (r matches Some(m) && Mapper::builds_bootleg(number, prg_16k, chr_8k, mirroring, submapper, m) && m.wf()),
            !Mapper::supported_bootleg(number) ==> r is None,
    {
        if number == 272 {
            Some(Mapper::Mapper272(Mapper272::new(prg_16k, chr_8k)))
        } else if number == 330 {
            Some(Mapper::Mapper330(Mapper330::new(prg_16k, chr_8k)))
        } else {
            None
        }
    }

    /// Is there a board of the `jy` family for this mapper number?
    pub open spec fn supported_jy(number: u16) -> bool {
        (number == 91)
        || (number == 90)
        || (number == 209)
        || (number == 211)
        || (number == 281)
        || (number == 282)
        || (number == 295)
        || (number == 358)
    }

    pub open spec fn builds_jy(number: u16, prg_16k: usize, chr_8k: usize, mirroring: Mirroring, submapper: u8, m: Mapper) -> bool {
        if number == 91 { m matches Mapper::Mapper91(x) && x.fresh(prg_16k, chr_8k, submapper, mirroring) }
        else if number == 90 { m matches Mapper::JyAsic(x) && x.fresh(prg_16k, chr_8k, JyAsicVariant::Mapper90) }
        else if number == 209 { m matches Mapper::JyAsic(x) && x.fresh(prg_16k, chr_8k, JyAsicVariant::Mapper209) }
        else if number == 211 { m matches Mapper::JyAsic(x) && x.fresh(prg_16k, chr_8k, JyAsicVariant::Mapper211) }
        else if number == 281 { m matches Mapper::JyAsic(x) && x.fresh(prg_16k, chr_8k, JyAsicVariant::Mapper281) }
        else if number == 282 { m matches Mapper::JyAsic(x) && x.fresh(prg_16k, chr_8k, JyAsicVariant::Mapper282) }
        else if number == 295 { m matches Mapper::JyAsic(x) && x.fresh(prg_16k, chr_8k, JyAsicVariant::Mapper295) }
        else if number == 358 { m matches Mapper::JyAsic(x) && x.fresh(prg_16k, chr_8k, JyAsicVariant::Mapper358) }
        else { false }
    }

    /// The `jy` family's constructor: `None` for numbers it does not cover.
    pub fn build_jy(number: u16, prg_16k: usize, chr_8k: usize, mirroring: Mirroring, submapper: u8) -> (r: Option<Mapper>)
        requires prg_16k <= MAX_PRG_16K, chr_8k <= MAX_CHR_8K,
        ensures
            Mapper::supported_jy(number) ==> (r matches Some(m) && Mapper::builds_jy(number, prg_16k, chr_8k, mirroring, submapper, m) && m.wf()),
            !Mapper::supported_jy(number) ==> r is None,
    {
        if number == 91 {
            Some(Mapper::Mapper91(Mapper91::new(prg_16k, chr_8k, submapper, mirroring)))
        } else if number == 90 {
            Some(Mapper::JyAsic(JyAsic::new(prg_16k, chr_8k, JyAsicVariant::Mapper90)))
        } else if number == 209 {
            Some(Mapper::JyAsic(JyAsic::new(prg_16k, chr_8k, JyAsicVariant::Mapper209)))
        } else if number == 211 {
            Some(Mapper::JyAsic(JyAsic::new(prg_16k, chr_8k, JyAsicVariant::Mapper211)))
        } else if number == 281 {
            Some(Mapper::JyAsic(JyAsic::new(prg_16k, chr_8k, JyAsicVariant::Mapper281)))
        } else if number == 282 {
            Some(Mapper::JyAsic(JyAsic::new(prg_16k, chr_8k, JyAsicVariant::Mapper282)))
        } else if number == 295 {
            Some(Mapper::JyAsic(JyAsic::new(prg_16k, chr_8k, JyAsicVariant::Mapper295)))
        } else if number == 358 {
            Some(Mapper::JyAsic(JyAsic::new(prg_16k, chr_8k, JyAsicVariant::Mapper358)))
        } else {
            None
        }
    }

    /// Is there a board for this iNES/NES 2.0 mapper number?
    pub open spec fn supported(number: u16) -> bool {
        Mapper::supported_board(number)
        || Mapper::supported_latch(number)
        || Mapper::supported_discrete(number)
        || Mapper::supported_ave(number)
        || Mapper::supported_sachen(number)
        || Mapper::supported_sunsoft(number)
        || Mapper::supported_longtail(number)
        || Mapper::supported_opencorp(number)
        || Mapper::supported_subor(number)
        || Mapper::supported_nanjing(number)
        || Mapper::supported_ntdec(number)
        || Mapper::supported_txc(number)
        || Mapper::supported_namco(number)
        || Mapper::supported_special(number)
        || Mapper::supported_sl12(number)
        || Mapper::supported_taito(number)
        || Mapper::supported_multicart(number)
        || Mapper::supported_bandai(number)
        || Mapper::supported_multicart2(number)
        || Mapper::supported_latch_boards(number)
        || Mapper::supported_irem(number)
        || Mapper::supported_konami(number)
        || Mapper::supported_irq_boards(number)
        || Mapper::supported_unlicensed(number)
        || Mapper::supported_bootleg(number)
        || Mapper::supported_jy(number)
    }

    /// `m` is the freshly built board for these cartridge parameters.
    pub open spec fn builds(number: u16, prg_16k: usize, chr_8k: usize, mirroring: Mirroring, submapper: u8, m: Mapper) -> bool {
        if Mapper::supported_board(number) { Mapper::builds_board(number, prg_16k, chr_8k, mirroring, submapper, m) }
        else if Mapper::supported_latch(number) { Mapper::builds_latch(number, prg_16k, chr_8k, mirroring, submapper, m) }
        else if Mapper::supported_discrete(number) { Mapper::builds_discrete(number, prg_16k, chr_8k, mirroring, submapper, m) }
        else if Mapper::supported_ave(number) { Mapper::builds_ave(number, prg_16k, chr_8k, mirroring, submapper, m) }
        else if Mapper::supported_sachen(number) { Mapper::builds_sachen(number, prg_16k, chr_8k, mirroring, submapper, m) }
        else if Mapper::supported_sunsoft(number) { Mapper::builds_sunsoft(number, prg_16k, chr_8k, mirroring, submapper, m) }
        else if Mapper::supported_longtail(number) { Mapper::builds_longtail(number, prg_16k, chr_8k, mirroring, submapper, m) }
        else if Mapper::supported_opencorp(number) { Mapper::builds_opencorp(number, prg_16k, chr_8k, mirroring, submapper, m) }
        else if Mapper::supported_subor(number) { Mapper::builds_subor(number, prg_16k, chr_8k, mirroring, submapper, m) }
        else if Mapper::supported_nanjing(number) { Mapper::builds_nanjing(number, prg_16k, chr_8k, mirroring, submapper, m) }
        else if Mapper::supported_ntdec(number) { Mapper::builds_ntdec(number, prg_16k, chr_8k, mirroring, submapper, m) }
        else if Mapper::supported_txc(number) { Mapper::builds_txc(number, prg_16k, chr_8k, mirroring, submapper, m) }
        else if Mapper::supported_namco(number) { Mapper::builds_namco(number, prg_16k, chr_8k, mirroring, submapper, m) }
        else if Mapper::supported_special(number) { Mapper::builds_special(number, prg_16k, chr_8k, mirroring, submapper, m) }
        else if Mapper::supported_sl12(number) { Mapper::builds_sl12(number, prg_16k, chr_8k, mirroring, submapper, m) }
        else if Mapper::supported_taito(number) { Mapper::builds_taito(number, prg_16k, chr_8k, mirroring, submapper, m) }
        else if Mapper::supported_multicart(number) { Mapper::builds_multicart(number, prg_16k, chr_8k, mirroring, submapper, m) }
        else if Mapper::supported_bandai(number) { Mapper::builds_bandai(number, prg_16k, chr_8k, mirroring, submapper, m) }
        else if Mapper::supported_multicart2(number) { Mapper::builds_multicart2(number, prg_16k, chr_8k, mirroring, submapper, m) }
        else if Mapper::supported_latch_boards(number) { Mapper::builds_latch_boards(number, prg_16k, chr_8k, mirroring, submapper, m) }
        else if Mapper::supported_irem(number) { Mapper::builds_irem(number, prg_16k, chr_8k, mirroring, submapper, m) }
        else if Mapper::supported_konami(number) { Mapper::builds_konami(number, prg_16k, chr_8k, mirroring, submapper, m) }
        else if Mapper::supported_irq_boards(number) { Mapper::builds_irq_boards(number, prg_16k, chr_8k, mirroring, submapper, m) }
        else if Mapper::supported_unlicensed(number) { Mapper::builds_unlicensed(number, prg_16k, chr_8k, mirroring, submapper, m) }
        else if Mapper::supported_bootleg(number) { Mapper::builds_bootleg(number, prg_16k, chr_8k, mirroring, submapper, m) }
        else if Mapper::supported_jy(number) { Mapper::builds_jy(number, prg_16k, chr_8k, mirroring, submapper, m) }
        else { false }
    }

    /// Build the board for a mapper number; `Err(number)` when unsupported.
    pub fn new(number: u16, prg_16k: usize, chr_8k: usize, mirroring: Mirroring, submapper: u8) -> (r: Result<Mapper, u16>)
        requires prg_16k <= MAX_PRG_16K, chr_8k <= MAX_CHR_8K,
        ensures
            Mapper::supported(number) ==> (r matches Ok(m) && Mapper::builds(number, prg_16k, chr_8k, mirroring, submapper, m) && m.wf()),
            !Mapper::supported(number) ==> r == Err::<Mapper, u16>(number),
    {
        if let Some(m) = Mapper::build_board(number, prg_16k, chr_8k, mirroring, submapper) {
            return Ok(m);
        }
        if let Some(m) = Mapper::build_latch(number, prg_16k, chr_8k, mirroring, submapper) {
            return Ok(m);
        }
        if let Some(m) = Mapper::build_discrete(number, prg_16k, chr_8k, mirroring, submapper) {
            return Ok(m);
        }
        if let Some(m) = Mapper::build_ave(number, prg_16k, chr_8k, mirroring, submapper) {
            return Ok(m);
        }
        if let Some(m) = Mapper::build_sachen(number, prg_16k, chr_8k, mirroring, submapper) {
            return Ok(m);
        }
        if let Some(m) = Mapper::build_sunsoft(number, prg_16k, chr_8k, mirroring, submapper) {
            return Ok(m);
        }
        if let Some(m) = Mapper::build_longtail(number, prg_16k, chr_8k, mirroring, submapper) {
            return Ok(m);
        }
        if let Some(m) = Mapper::build_opencorp(number, prg_16k, chr_8k, mirroring, submapper) {
            return Ok(m);
        }
        if let Some(m) = Mapper::build_subor(number, prg_16k, chr_8k, mirroring, submapper) {
            return Ok(m);
        }
        if let Some(m) = Mapper::build_nanjing(number, prg_16k, chr_8k, mirroring, submapper) {
            return Ok(m);
        }
        if let Some(m) = Mapper::build_ntdec(number, prg_16k, chr_8k, mirroring, submapper) {
            return Ok(m);
        }
        if let Some(m) = Mapper::build_txc(number, prg_16k, chr_8k, mirroring, submapper) {
            return Ok(m);
        }
        if let Some(m) = Mapper::build_namco(number, prg_16k, chr_8k, mirroring, submapper) {
            return Ok(m);
        }
        if let Some(m) = Mapper::build_special(number, prg_16k, chr_8k, mirroring, submapper) {
            return Ok(m);
        }
        if let Some(m) = Mapper::build_sl12(number, prg_16k, chr_8k, mirroring, submapper) {
            return Ok(m);
        }
        if let Some(m) = Mapper::build_taito(number, prg_16k, chr_8k, mirroring, submapper) {
            return Ok(m);
        }
        if let Some(m) = Mapper::build_multicart(number, prg_16k, chr_8k, mirroring, submapper) {
            return Ok(m);
        }
        if let Some(m) = Mapper::build_bandai(number, prg_16k, chr_8k, mirroring, submapper) {
            return Ok(m);
        }
        if let Some(m) = Mapper::build_multicart2(number, prg_16k, chr_8k, mirroring, submapper) {
            return Ok(m);
        }
        if let Some(m) = Mapper::build_latch_boards(number, prg_16k, chr_8k, mirroring, submapper) {
            return Ok(m);
        }
        if let Some(m) = Mapper::build_irem(number, prg_16k, chr_8k, mirroring, submapper) {
            return Ok(m);
        }
        if let Some(m) = Mapper::build_konami(number, prg_16k, chr_8k, mirroring, submapper) {
            return Ok(m);
        }
        if let Some(m) = Mapper::build_irq_boards(number, prg_16k, chr_8k, mirroring, submapper) {
            return Ok(m);
        }
        if let Some(m) = Mapper::build_unlicensed(number, prg_16k, chr_8k, mirroring, submapper) {
            return Ok(m);
        }
        if let Some(m) = Mapper::build_bootleg(number, prg_16k, chr_8k, mirroring, submapper) {
            return Ok(m);
        }
        if let Some(m) = Mapper::build_jy(number, prg_16k, chr_8k, mirroring, submapper) {
            return Ok(m);
        }
        Err(number)
    }
}

} // verus!
