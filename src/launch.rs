use vstd::prelude::*;
use crate::capability::Capability;
use crate::permissions::PermissionSet;
use crate::session::{ErrorKind, HostError};

verus! {

/// What a caller asks to run: an artifact and the capabilities granted to it.
pub struct LaunchConfig {
    pub artifact: String,
    pub permissions: PermissionSet,
}

pub open spec fn spec_malicious_artifact() -> Seq<char> {
    "target/wasm32-wasip1/release/component_malicious.wasm"@
}

pub open spec fn spec_trusted_artifact() -> Seq<char> {
    "target/wasm32-wasip1/release/component_trusted.wasm"@
}

pub open spec fn spec_unknown_preset_message(name: Seq<char>) -> Seq<char> {
    "Unknown component: "@ + name + ". Use 'malicious' or 'trusted'."@
}

/// Resolves a named demonstration preset to its launch configuration:
/// `malicious` runs with nothing granted, `trusted` with filesystem read and
/// write but no network. Any other name is a configuration error.
pub fn run_legacy_demo(component_name: &str) -> (r: Result<LaunchConfig, HostError>)
    ensures
        component_name@ == "malicious"@ ==> r is Ok && r->Ok_0.artifact@
            == spec_malicious_artifact() && r->Ok_0.permissions@ == Set::<
            Capability,
        >::empty(),
        component_name@ == "trusted"@ ==> r is Ok && r->Ok_0.artifact@ == spec_trusted_artifact()
            && r->Ok_0.permissions@ == set![Capability::FilesystemRead, Capability::FilesystemWrite],
        component_name@ != "malicious"@ && component_name@ != "trusted"@ ==> r is Err
            && r->Err_0.kind == ErrorKind::Config && r->Err_0.detail@
            == spec_unknown_preset_message(component_name@),
{
    proof {
        reveal_strlit("malicious");
        reveal_strlit("trusted");
        assert("trusted"@.len() != "malicious"@.len());
    }
    let name = component_name.to_owned();
    if name == "malicious".to_owned() {
        Ok(
            LaunchConfig {
                artifact: "target/wasm32-wasip1/release/component_malicious.wasm".to_owned(),
                permissions: PermissionSet::none(),
            },
        )
    } else if name == "trusted".to_owned() {
        let permissions = PermissionSet::new(true, true, false);
        assert(permissions@ =~= set![Capability::FilesystemRead, Capability::FilesystemWrite]) by {
            assert forall|c: Capability| #[trigger]
                permissions@.contains(c) == set![
                    Capability::FilesystemRead,
                    Capability::FilesystemWrite,
                ].contains(c) by {
                match c {
                    Capability::FilesystemRead => {},
                    Capability::FilesystemWrite => {},
                    Capability::Network => {},
                }
            }
        }
        Ok(
            LaunchConfig {
                artifact: "target/wasm32-wasip1/release/component_trusted.wasm".to_owned(),
                permissions,
            },
        )
    } else {
        let mut detail = "Unknown component: ".to_owned();
        detail.append(component_name);
        detail.append(". Use 'malicious' or 'trusted'.");
        Err(HostError { kind: ErrorKind::Config, detail })
    }
}

/// Where the source text for a computation-only session comes from.
pub enum ScanSource {
    Inline(String),
    File(String),
}

/// Picks the source to scan: inline code wins over a file; with neither the
/// configuration is incomplete.
pub fn scan_source(code: Option<String>, file: Option<String>) -> (r: Result<ScanSource, HostError>)
    ensures
        code is Some ==> r is Ok && r->Ok_0 == ScanSource::Inline(code->0),
        code is None && file is Some ==> r is Ok && r->Ok_0 == ScanSource::File(file->0),
        code is None && file is None ==> r is Err && r->Err_0.kind == ErrorKind::Config
            && r->Err_0.detail@ == "Must provide either --code or --file argument"@,
{
    match (code, file) {
        (Some(c), _) => Ok(ScanSource::Inline(c)),
        (None, Some(f)) => Ok(ScanSource::File(f)),
        (None, None) => Err(
            HostError {
                kind: ErrorKind::Config,
                detail: "Must provide either --code or --file argument".to_owned(),
            },
        ),
    }
}

} // verus!
