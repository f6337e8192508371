use vstd::prelude::*;

verus! {

/// The name of the credential vault file inside the application-data directory.
pub open spec fn vault_file_name_spec() -> Seq<char> {
    "credentials.stronghold"@
}

pub open spec fn locate_failure_prefix() -> Seq<char> {
    "Failed to locate app data directory: "@
}

pub open spec fn delete_failure_prefix() -> Seq<char> {
    "Failed to delete credentials vault: "@
}

/// A reset deletes the vault file exactly when it is there.
pub open spec fn needs_deletion(present: bool) -> bool {
    present
}

/// The outcome of a reset, given the result of the deletion if one was made
/// (`None` when the file was absent and nothing was done).
pub open spec fn reset_outcome(deletion: Option<Result<(), Seq<char>>>) -> Result<(), Seq<char>> {
    match deletion {
        None => Ok(()),
        Some(Ok(())) => Ok(()),
        Some(Err(e)) => Err(delete_failure_prefix() + e),
    }
}

/// A deletion's result over plain values.
pub open spec fn deletion_view(deletion: Option<Result<(), String>>) -> Option<Result<(), Seq<char>>> {
    match deletion {
        None => None,
        Some(Ok(())) => Some(Ok(())),
        Some(Err(e)) => Some(Err(e@)),
    }
}

/// The vault file's name.
pub fn vault_file_name() -> (r: &'static str)
    ensures
        r@ == vault_file_name_spec(),
{
    "credentials.stronghold"
}

/// Whether a reset must delete the vault file, given whether it is there.
pub fn plan_vault_reset(present: bool) -> (r: bool)
    ensures
        r == needs_deletion(present),
{
    present
}

/// The result of a reset, given the result of the deletion if one was made:
/// success, or the deletion's failure described for the UI.
pub fn finish_vault_reset(deletion: Option<Result<(), String>>) -> (r: Result<(), String>)
    ensures
        match reset_outcome(deletion_view(deletion)) {
            Ok(()) => r is Ok,
            Err(m) => r is Err && r->Err_0@ == m,
        },
{
    match deletion {
        None => Ok(()),
        Some(Ok(())) => Ok(()),
        Some(Err(e)) => Err(String::from_str("Failed to delete credentials vault: ").concat(e.as_str())),
    }
}

/// The message returned when the application-data directory cannot be found;
/// `detail` describes the failure.
pub fn locate_failure_message(detail: &str) -> (r: String)
    ensures
        r@ == locate_failure_prefix() + detail@,
{
    String::from_str("Failed to locate app data directory: ").concat(detail)
}

/// A reset of an absent vault deletes nothing and succeeds. A deletion that
/// succeeded leaves the vault absent, so the next reset is again one of an
/// absent vault: resetting twice succeeds both times.
pub proof fn lemma_reset_idempotent(present: bool)
    ensures
        !needs_deletion(false),
        reset_outcome(None) == Ok::<(), Seq<char>>(()),
        needs_deletion(present) ==> reset_outcome(Some(Ok::<(), Seq<char>>(()))) == Ok::<
            (),
            Seq<char>,
        >(()),
{
}

} // verus!
