//! The options of the measurement calculator.
use vstd::prelude::*;
use vstd::string::StringExecFns;

verus! {

/// Where the Stage0 ROM image is built, relative to the workspace root.
pub const DEFAULT_STAGE0_ROM: &'static str = "stage0_bin/target/x86_64-unknown-none/release/stage0_bin";

/// The options of one run: the ROM image to load, whether the firmware is shadowed for
/// legacy boot, and how many vCPUs the VM has at boot.
#[derive(Clone, Debug)]
pub struct Cli {
    pub stage0_rom: Option<String>,
    pub legacy_boot: bool,
    pub vcpu_count: usize,
}

impl Cli {
    /// The path of the ROM image: the one given, or else the default location under
    /// `workspace_root`.
    pub fn stage0_path(&self, workspace_root: &str) -> (r: String)
        ensures
            r@ == match self.stage0_rom {
                Some(p) => p@,
                None => workspace_root@ + "/"@ + DEFAULT_STAGE0_ROM@,
            },
    {
        match &self.stage0_rom {
            Some(p) => p.clone(),
            None => String::from_str(workspace_root).concat("/").concat(DEFAULT_STAGE0_ROM),
        }
    }
}

} // verus!
