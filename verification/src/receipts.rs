//! What was seen of host processes and of attested files.
use vstd::prelude::*;

verus! {

/// A host process as the operating system shows it.
#[derive(Debug, PartialEq, Eq)]
pub struct ObservedHostProcess {
    pub pid: u32,
    pub process_start_identity: String,
    pub executable_path: String,
}

/// The mathematical value behind an [`ObservedHostProcess`].
#[verifier::ext_equal]
pub struct ObservedHostProcessModel {
    pub pid: u32,
    pub process_start_identity: Seq<char>,
    pub executable_path: Seq<char>,
}

impl View for ObservedHostProcess {
    type V = ObservedHostProcessModel;

    open spec fn view(&self) -> ObservedHostProcessModel {
        ObservedHostProcessModel {
            pid: self.pid,
            process_start_identity: self.process_start_identity@,
            executable_path: self.executable_path@,
        }
    }
}

impl Clone for ObservedHostProcess {
    fn clone(&self) -> (r: Self)
        ensures
            r == *self,
    {
        ObservedHostProcess {
            pid: self.pid,
            process_start_identity: self.process_start_identity.clone(),
            executable_path: self.executable_path.clone(),
        }
    }
}

impl ObservedHostProcess {
    /// The operating system shows exactly this process.
    pub open spec fn shown_as(self, actual: Option<ObservedHostProcess>) -> bool {
        actual is Some && actual->0@ == self@
    }

    /// Whether the operating system still shows exactly this process under its
    /// number; `None` stands for no such process.
    pub fn is_shown_as(&self, actual: &Option<ObservedHostProcess>) -> (r: bool)
        ensures
            r == self.shown_as(*actual),
    {
        match actual {
            Some(actual) => actual.pid == self.pid && actual.process_start_identity
                == self.process_start_identity && actual.executable_path == self.executable_path,
            None => false,
        }
    }
}

/// A path as it was asked for, what it resolved to, and the volume and index
/// of the file behind it.
#[derive(Debug, PartialEq, Eq)]
pub struct PathReceipt {
    pub requested: String,
    pub canonical: String,
    pub filesystem_identity: (u64, u64),
}

/// A file of an extension at the moment it was attested.
#[derive(Debug, PartialEq, Eq)]
pub struct IllustratorFileReceipt {
    pub path: PathReceipt,
    pub bytes: u64,
    pub sha256: String,
}

/// The files of an Illustrator extension at the moment they were attested.
#[derive(Debug, PartialEq, Eq)]
pub struct IllustratorPluginReceipt {
    pub root: PathReceipt,
    pub manifest: IllustratorFileReceipt,
    pub index: IllustratorFileReceipt,
    pub module: IllustratorFileReceipt,
}

/// What was prepared for a bootstrap and must be rolled back if it fails.
#[derive(Debug, PartialEq, Eq)]
pub struct PreparedBootstrap {
    pub config_path: Option<String>,
    pub previous_config: Option<Vec<u8>>,
    pub transient_config: Option<Vec<u8>>,
    pub committed_config: Option<Vec<u8>>,
    pub module_sha256: String,
    pub illustrator_receipt: Option<IllustratorPluginReceipt>,
}

} // verus!
