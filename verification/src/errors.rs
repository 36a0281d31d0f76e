//! The error taxonomy of device discovery.
//!
//! Each variant stands for one stage of the discovery pipeline. Stages that
//! fail with a detail reported by the driver or the operating system carry
//! that detail as a string, and the rendered message keeps it verbatim.

use vstd::prelude::*;

verus! {

use vstd::string::StringExecFns;

/// Why discovery failed. One variant per pipeline stage, in pipeline order.
#[derive(Debug, Clone, PartialEq, Eq)]
pub enum DiscoveryError {
    /// The driver library could not be initialized.
    DriverInit,
    /// The PCI enumeration of AMD devices was empty.
    NoDeviceFound,
    /// The chosen device's render-node path could not be resolved.
    PathResolution(String),
    /// The render node could not be opened.
    Io(String),
    /// The driver session could not be initialized from the open descriptor.
    HandleInit(String),
    /// The driver session refused the static device-info query.
    InfoQuery(String),
}

impl DiscoveryError {
    /// The driver or OS detail carried by the failing stage, if it has one.
    pub open spec fn detail_spec(&self) -> Option<Seq<char>> {
        match self {
            DiscoveryError::DriverInit => None,
            DiscoveryError::NoDeviceFound => None,
            DiscoveryError::PathResolution(d) => Some(d@),
            DiscoveryError::Io(d) => Some(d@),
            DiscoveryError::HandleInit(d) => Some(d@),
            DiscoveryError::InfoQuery(d) => Some(d@),
        }
    }

    /// The human-readable message, character by character.
    pub open spec fn message_spec(&self) -> Seq<char> {
        match self {
            DiscoveryError::DriverInit => "Could not initialize libdrm"@,
            DiscoveryError::NoDeviceFound => "No AMD GPU found"@,
            DiscoveryError::PathResolution(d) => "Could not resolve render path: "@ + d@,
            DiscoveryError::Io(d) => "Could not open render node: "@ + d@,
            DiscoveryError::HandleInit(d) => "Could not init device handle: "@ + d@,
            DiscoveryError::InfoQuery(d) => "Could not get device info: "@ + d@,
        }
    }

    /// Renders the message exactly as [`Self::message_spec`] states it.
    pub fn message(&self) -> (r: String)
        ensures
            r@ == self.message_spec(),
    {
        match self {
            DiscoveryError::DriverInit => String::from_str("Could not initialize libdrm"),
            DiscoveryError::NoDeviceFound => String::from_str("No AMD GPU found"),
            DiscoveryError::PathResolution(d) => String::from_str(
                "Could not resolve render path: ",
            ).concat(d.as_str()),
            DiscoveryError::Io(d) => String::from_str("Could not open render node: ").concat(
                d.as_str(),
            ),
            DiscoveryError::HandleInit(d) => String::from_str(
                "Could not init device handle: ",
            ).concat(d.as_str()),
            DiscoveryError::InfoQuery(d) => String::from_str("Could not get device info: ").concat(
                d.as_str(),
            ),
        }
    }
}

/// `sub` occurs contiguously somewhere inside `hay`.
pub open spec fn seq_has_substring(hay: Seq<char>, sub: Seq<char>) -> bool {
    exists|i: int|
        0 <= i && i + sub.len() <= hay.len() && #[trigger] hay.subrange(i, i + sub.len()) == sub
}

/// Law: when a stage fails with a driver or OS detail, the rendered message
/// contains that detail verbatim.
pub proof fn lemma_detail_in_message(e: DiscoveryError)
    requires
        e.detail_spec() is Some,
    ensures
        seq_has_substring(e.message_spec(), e.detail_spec().unwrap()),
{
    let m = e.message_spec();
    let d = e.detail_spec().unwrap();
    match e {
        DiscoveryError::DriverInit => {},
        DiscoveryError::NoDeviceFound => {},
        DiscoveryError::PathResolution(dd) => {
            let p = "Could not resolve render path: "@;
            assert(m.subrange(p.len() as int, p.len() + dd@.len() as int) =~= dd@);
        },
        DiscoveryError::Io(dd) => {
            let p = "Could not open render node: "@;
            assert(m.subrange(p.len() as int, p.len() + dd@.len() as int) =~= dd@);
        },
        DiscoveryError::HandleInit(dd) => {
            let p = "Could not init device handle: "@;
            assert(m.subrange(p.len() as int, p.len() + dd@.len() as int) =~= dd@);
        },
        DiscoveryError::InfoQuery(dd) => {
            let p = "Could not get device info: "@;
            assert(m.subrange(p.len() as int, p.len() + dd@.len() as int) =~= dd@);
        },
    }
}

} // verus!
