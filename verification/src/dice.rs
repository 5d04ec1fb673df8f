//! The DICE input values the broker's attestation path hands to the
//! secure environment, held as plain values. The hardware side takes
//! them as a C-layout record of raw pointers; the unverified layer
//! that talks to it derives those pointers from the owned fields here.

use vstd::prelude::*;

verus! {

/// The size of a DICE hash.
pub const HASH_SIZE: usize = 64;

/// The size of the DICE hidden value.
pub const HIDDEN_SIZE: usize = 64;

/// The size of a DICE inline config.
pub const INLINE_CONFIG_SIZE: usize = 64;

/// The size of a CDI.
pub const CDI_SIZE: usize = 32;

/// Array type of hashes used by DICE.
pub type Hash = [u8; HASH_SIZE];

/// Array type of additional input.
pub type Hidden = [u8; HIDDEN_SIZE];

/// Array type of inline configuration values.
pub type InlineConfig = [u8; INLINE_CONFIG_SIZE];

/// Array type of CDIs.
pub type Cdi = [u8; CDI_SIZE];

/// The all-zero inline configuration, used where the configuration is
/// a free-form descriptor instead.
pub open spec fn zero_inline_config() -> Seq<u8> {
    Seq::new(INLINE_CONFIG_SIZE as nat, |i: int| 0u8)
}

/// Which of the two configuration forms an input carries.
#[derive(Clone, Copy, PartialEq, Eq, Structural, Debug)]
pub enum ConfigKind {
    /// An inline descriptor used as-is.
    Inline,
    /// A free-form descriptor that the implementation hashes.
    Descriptor,
}

/// Configuration descriptor for DICE input values.
#[derive(Debug, Clone, PartialEq, Eq)]
pub enum Config {
    /// An inline descriptor.
    Inline(InlineConfig),
    /// A free-form descriptor that will be hashed by the
    /// implementation.
    Descriptor(Vec<u8>),
}

impl Config {
    /// Which configuration form this is.
    fn dice_config_type(&self) -> (r: ConfigKind)
        ensures
            self matches Config::Inline(_) <==> r == ConfigKind::Inline,
            self matches Config::Descriptor(_) <==> r == ConfigKind::Descriptor,
    {
        match self {
            Config::Inline(_) => ConfigKind::Inline,
            Config::Descriptor(_) => ConfigKind::Descriptor,
        }
    }

    /// The inline configuration value: the descriptor itself for the
    /// inline form, all zeroes otherwise.
    pub fn inline_config(&self) -> (r: InlineConfig)
        ensures
            self matches Config::Inline(v) ==> r@ == v@,
            self matches Config::Descriptor(_) ==> r@ == zero_inline_config(),
    {
        match self {
            Config::Inline(inline) => *inline,
            Config::Descriptor(_) => {
                let r = [0u8; INLINE_CONFIG_SIZE];
                proof {
                    assert(r@ =~= zero_inline_config());
                }
                r
            },
        }
    }

    /// The length of the free-form descriptor; 0 for the inline form.
    pub fn descriptor_size(&self) -> (r: usize)
        ensures
            self matches Config::Descriptor(d) ==> r == d@.len(),
            self matches Config::Inline(_) ==> r == 0,
    {
        match self {
            Config::Descriptor(descriptor) => descriptor.len(),
            Config::Inline(_) => 0,
        }
    }
}

/// The complete set of input values for one DICE derivation, with the
/// configuration flattened into kind, inline value and owned
/// descriptor bytes.
#[derive(Clone, Debug)]
pub struct InputValues {
    /// Hash of the code to derive for.
    pub code_hash: Hash,
    /// Which configuration form `new` was given.
    pub config_kind: ConfigKind,
    /// The inline configuration value; all zeroes for the descriptor
    /// form.
    pub config_value: InlineConfig,
    /// The free-form descriptor bytes; empty for the inline form.
    pub config_descriptor: Vec<u8>,
    /// Hash of the authority.
    pub authority_hash: Hash,
    /// The DICE mode.
    pub mode: DiceMode,
    /// The hidden input value.
    pub hidden: Hidden,
}

/// The mode of the DICE derivation.
#[derive(Clone, Copy, PartialEq, Eq, Structural, Debug)]
pub enum DiceMode {
    /// The mode is not yet determined.
    NotInitialized,
    /// Normal operation.
    Normal,
    /// A debug feature is enabled.
    Debug,
    /// Recovery or maintenance.
    Maintenance,
}

impl InputValues {
    /// Creates a new `InputValues`, pinning every field: the hashes,
    /// mode and hidden value verbatim, and the configuration split by
    /// form.
    pub fn new(
        code_hash: Hash,
        config: Config,
        authority_hash: Hash,
        mode: DiceMode,
        hidden: Hidden,
    ) -> (r: InputValues)
        ensures
            r.code_hash@ == code_hash@,
            r.authority_hash@ == authority_hash@,
            r.mode == mode,
            r.hidden@ == hidden@,
            config matches Config::Inline(v) ==> r.config_kind == ConfigKind::Inline
                && r.config_value@ == v@ && r.config_descriptor@ == Seq::<u8>::empty(),
            config matches Config::Descriptor(d) ==> r.config_kind == ConfigKind::Descriptor
                && r.config_value@ == zero_inline_config() && r.config_descriptor@ == d@,
    {
        let config_kind = config.dice_config_type();
        let config_value = config.inline_config();
        let config_descriptor = match config {
            Config::Inline(_) => Vec::new(),
            Config::Descriptor(d) => d,
        };
        proof {
            if config_descriptor@.len() == 0 {
                assert(config_descriptor@ =~= Seq::<u8>::empty());
            }
        }
        InputValues { code_hash, config_kind, config_value, config_descriptor, authority_hash, mode, hidden }
    }
}

} // verus!
