//! Attestation report requests: the configuration a client attests under
//! and the argument records of the report tooling. Talking to the
//! attestation device and verifying certificate chains is outside work;
//! only the plain data and its rules live here.

use vstd::prelude::*;

use crate::handshake::test_challenge;
use crate::handshake::test_challenge_spec;

verus! {

/// Processor family the endorsement chain is fetched for.
#[derive(Debug, Clone, Copy, PartialEq, Eq, Structural)]
pub enum ProcType {
    Milan,
    Genoa,
    Bergamo,
    Siena,
}

/// Which endorsement key kind signs the report.
#[derive(Debug, Clone, Copy, PartialEq, Eq, Structural)]
pub enum Endorsement {
    Vcek,
    Vlek,
}

/// What a client attests under: processor family and key kind. Immutable
/// per launch.
#[derive(Debug, Clone, Copy, PartialEq, Eq, Structural)]
pub struct AttestationConfig {
    pub proc_type: ProcType,
    pub endorsement: Endorsement,
}

/// Arguments for requesting a report directly from the local device.
#[derive(Debug)]
pub struct ReportDirectArgs {
    pub proc_type: ProcType,
    pub endorsement: Endorsement,
    pub request_data: Vec<u8>,
}

impl ReportDirectArgs {
    /// The default request: Milan, VCEK, and the fixed test request data.
    pub fn default() -> (r: Self)
        ensures
            r.proc_type is Milan,
            r.endorsement is Vcek,
            r.request_data@ == test_challenge_spec(),
    {
        ReportDirectArgs {
            proc_type: ProcType::Milan,
            endorsement: Endorsement::Vcek,
            request_data: test_challenge(),
        }
    }
}

/// Arguments of a report request made through files.
#[derive(Debug, Clone)]
pub struct ReportArgs {
    /// Where the report is written.
    pub att_report_path: String,
    /// Use random request data.
    pub random: bool,
    /// VMPL level of the guest.
    pub vmpl: Option<u32>,
    /// Where request data is read from or written to.
    pub request_file: String,
    /// Expect the platform to supply the request data.
    pub platform: bool,
    /// Produce a default report without touching hardware.
    pub dry: bool,
}

impl ReportArgs {
    /// The flag combinations a request refuses: random data cannot be
    /// combined with platform-supplied data, random data is refused on a
    /// Hyper-V guest, and platform-supplied data requires one.
    pub fn verify(&self, hyperv: bool) -> (r: Result<(), String>)
        ensures
            r is Ok <==> !(self.random && self.platform) && !(self.random && hyperv) && !(
            self.platform && !hyperv),
    {
        if self.random && self.platform {
            return Err(
                "--random and --platform both enabled (not allowed). Consult man page.".to_owned(),
            );
        }
        if self.random && hyperv {
            return Err(
                "--random enabled yet Hyper-V guest detected (not allowed). Consult man page.".to_owned(),
            );
        }
        if self.platform && !hyperv {
            return Err(
                "--platform enabled yet Hyper-V guest not detected (not allowed). Consult man page.".to_owned(),
            );
        }
        Ok(())
    }
}

/// Arguments of a verification run: where certificates live and where the
/// received report lies.
#[derive(Debug, Clone)]
pub struct Args {
    pub certs_dir: String,
    pub ext_att_report_path: String,
}

} // verus!
