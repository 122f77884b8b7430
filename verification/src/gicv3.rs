//! The interrupt configuration that the platform gives the GICv3 driver: which group, priority
//! and trigger each interrupt gets.

use vstd::prelude::*;

verus! {

/// The lowest priority of non-secure interrupts that the firmware uses by default.
pub const GIC_HIGHEST_NS_PRIORITY: u8 = 0x80;

/// The highest interrupt priority, which secure interrupts get.
pub const HIGHEST_S_PRIORITY: u8 = 0x00;

/// The idle priority that the priority mask is set to.
pub const GIC_PRI_MASK: u8 = 0xff;

/// An interrupt ID.
#[derive(Clone, Copy, Debug, Eq, PartialEq, Structural)]
pub struct IntId(pub u32);

impl IntId {
    /// The number of software-generated interrupts.
    pub const SGI_COUNT: u32 = 16;
    /// The number of private peripheral interrupts.
    pub const PPI_COUNT: u32 = 16;

    /// Returns the ID of software-generated interrupt `sgi`.
    pub fn sgi(sgi: u32) -> (id: IntId)
        requires
            sgi < Self::SGI_COUNT,
        ensures
            id.0 == sgi,
    {
        IntId(sgi)
    }

    /// Returns whether this is a private peripheral interrupt.
    pub fn is_ppi(self) -> (ppi: bool)
        ensures
            ppi == (Self::SGI_COUNT <= self.0 < Self::SGI_COUNT + Self::PPI_COUNT),
    {
        Self::SGI_COUNT <= self.0 && self.0 < Self::SGI_COUNT + Self::PPI_COUNT
    }
}

/// The group of a secure interrupt.
#[derive(Clone, Copy, Debug, Eq, PartialEq, Structural)]
pub enum SecureIntGroup {
    /// Group 1 secure.
    Group1S,
    /// Group 0.
    Group0,
}

/// The group of an interrupt.
#[derive(Clone, Copy, Debug, Eq, PartialEq, Structural)]
pub enum Group {
    /// A secure group.
    Secure(SecureIntGroup),
    /// Group 1 non-secure.
    Group1NS,
}

/// Whether an interrupt is edge or level triggered.
#[derive(Clone, Copy, Debug, Eq, PartialEq, Structural)]
pub enum Trigger {
    Edge,
    Level,
}

/// The configuration of a single interrupt.
#[derive(Clone, Copy, Debug, Eq, PartialEq, Structural)]
pub struct InterruptConfig {
    /// Interrupt priority: 0x00 is the highest, 0xFF the lowest.
    pub priority: u8,
    /// The group that the interrupt belongs to.
    pub group: Group,
    /// Whether the interrupt is edge or level triggered.
    pub trigger: Trigger,
}

/// The configuration of an interrupt that the platform does not configure: a level-triggered
/// non-secure group 1 interrupt of the highest non-secure priority.
pub open spec fn default_interrupt_config() -> InterruptConfig {
    InterruptConfig {
        priority: GIC_HIGHEST_NS_PRIORITY,
        group: Group::Group1NS,
        trigger: Trigger::Level,
    }
}

impl Default for InterruptConfig {
    fn default() -> (config: Self)
        ensures
            config == default_interrupt_config(),
    {
        InterruptConfig {
            priority: GIC_HIGHEST_NS_PRIORITY,
            group: Group::Group1NS,
            trigger: Trigger::Level,
        }
    }
}

/// The configuration of the platform's GIC.
pub struct GicConfig {
    /// The interrupts that do not get the default configuration, each with its configuration.
    pub interrupts_config: &'static [(IntId, InterruptConfig)],
}

/// The configuration that the list `entries` gives interrupt `int_id`: that of the first entry
/// for it, or the default if there is none.
pub open spec fn spec_interrupt_config(entries: Seq<(IntId, InterruptConfig)>, int_id: IntId) -> InterruptConfig
    decreases entries.len(),
{
    if entries.len() == 0 {
        default_interrupt_config()
    } else if entries[0].0 == int_id {
        entries[0].1
    } else {
        spec_interrupt_config(entries.drop_first(), int_id)
    }
}

impl GicConfig {
    /// Returns the configuration of interrupt `int_id`: that of its first entry in the list, or
    /// the default configuration if it has none.
    pub fn get_interrupt_config_or_default(&self, int_id: IntId) -> (config: InterruptConfig)
        ensures
            config == spec_interrupt_config(self.interrupts_config@, int_id),
    {
        let entries = self.interrupts_config;
        let mut i: usize = 0;
        assert(entries@.subrange(0, entries@.len() as int) =~= entries@);
        while i < entries.len()
            invariant
                entries@ == self.interrupts_config@,
                i <= entries@.len(),
                spec_interrupt_config(entries@, int_id) == spec_interrupt_config(
                    entries@.subrange(i as int, entries@.len() as int),
                    int_id,
                ),
            decreases entries@.len() - i,
        {
            let entry = entries[i];
            let id = entry.0;
            let config = entry.1;
            let ghost rest = entries@.subrange(i as int, entries@.len() as int);
            assert(rest.drop_first() =~= entries@.subrange(i + 1, entries@.len() as int));
            assert(rest[0] == entries@[i as int]);
            if id == int_id {
                assert(rest.len() > 0 && rest[0].0 == int_id);
                return config;
            }
            i = i + 1;
        }
        assert(entries@.subrange(i as int, entries@.len() as int) =~= Seq::<(IntId, InterruptConfig)>::empty());
        InterruptConfig::default()
    }
}

} // verus!
