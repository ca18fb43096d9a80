use vstd::prelude::*;

use crate::config::TotpConfig;
use crate::engine::{
    base32_bytes, current_code, is_base32_text, is_decimal_digits, totp_code, validate_and_normalize, validated, ValidationError,
};

verus! {

/// How a credential store call failed.
#[derive(Clone, Copy, Debug, PartialEq, Eq, Structural)]
pub enum StoreError {
    /// No entry under that name.
    NotFound,
    /// The platform refused access (a locked keychain, a missing permission).
    AccessDenied,
    /// Any other failure of the platform store.
    Backend,
}

/// Why a command failed.
#[derive(Clone, Copy, Debug, PartialEq, Eq, Structural)]
pub enum CommandError {
    /// The secret given to `store` is unusable; nothing was written.
    InvalidSecret(ValidationError),
    /// The secret read back from the store is unusable.
    InvalidStoredSecret(ValidationError),
    /// The credential store failed.
    Store(StoreError),
}

/// One invocation of the tool.
#[derive(Clone, Debug)]
pub enum Command {
    Store { name: String, secret: String },
    Generate { name: String },
    List,
    Remove { name: String },
}

/// A call that the caller makes on the credential store, under this tool's
/// service name.
#[derive(Clone, Debug)]
pub enum StoreRequest {
    /// Write or overwrite the secret of an entry.
    Write { name: String, secret: String },
    /// Read the secret of an entry.
    Read { name: String },
    /// Delete an entry.
    Delete { name: String },
}

/// What a command leads to first: a store call, or its final outcome.
#[derive(Debug)]
pub enum Step {
    Call(StoreRequest),
    Done(Result<Report, CommandError>),
}

/// The outcome of a command that succeeded.
#[derive(Clone, Debug)]
pub enum Report {
    Stored { name: String },
    Code { code: String },
    /// The store offers no enumeration: listing is answered with advice.
    ListingUnsupported,
    Removed { name: String },
}

/// The credential store as its adapter contract describes it: entry name to
/// secret text.
pub type StoreModel = Map<Seq<char>, Seq<char>>;

/// The store's answer to a read.
pub open spec fn fetch(store: StoreModel, name: Seq<char>) -> Result<Seq<char>, StoreError> {
    if store.contains_key(name) {
        Ok(store[name])
    } else {
        Err(StoreError::NotFound)
    }
}

/// The store after a delete, and its answer.
pub open spec fn delete(store: StoreModel, name: Seq<char>) -> (StoreModel, Result<(), StoreError>) {
    if store.contains_key(name) {
        (store.remove(name), Ok(()))
    } else {
        (store, Err(StoreError::NotFound))
    }
}

pub open spec fn fetched_view(fetched: Result<String, StoreError>) -> Result<Seq<char>, StoreError> {
    match fetched {
        Ok(s) => Ok(s@),
        Err(e) => Err(e),
    }
}

/// The code that `generate` prints, given what the store answered.
pub open spec fn generate_outcome(
    config: TotpConfig,
    fetched: Result<Seq<char>, StoreError>,
    now: nat,
) -> Result<Seq<char>, CommandError> {
    match fetched {
        Err(e) => Err(CommandError::Store(e)),
        Ok(secret) => match validated(secret) {
            Err(e) => Err(CommandError::InvalidStoredSecret(e)),
            Ok(key) => Ok(totp_code(config, key, now)),
        },
    }
}

/// `store` run against a store: the store after it, and the outcome.
pub open spec fn run_store(store: StoreModel, name: Seq<char>, secret: Seq<char>) -> (StoreModel, Result<(), CommandError>) {
    match validated(secret) {
        Err(e) => (store, Err(CommandError::InvalidSecret(e))),
        Ok(_) => (store.insert(name, secret), Ok(())),
    }
}

/// `generate` run against a store.
pub open spec fn run_generate(config: TotpConfig, store: StoreModel, name: Seq<char>, now: nat) -> Result<Seq<char>, CommandError> {
    generate_outcome(config, fetch(store, name), now)
}

/// `remove` run against a store: the store after it, and the outcome.
pub open spec fn run_remove(store: StoreModel, name: Seq<char>) -> (StoreModel, Result<(), CommandError>) {
    let (after, reply) = delete(store, name);
    match reply {
        Ok(()) => (after, Ok(())),
        Err(e) => (after, Err(CommandError::Store(e))),
    }
}

/// Decides what a command does first. `store` validates its secret before
/// anything is written; `list` succeeds at once, whatever the store holds.
pub fn plan(command: Command) -> (r: Step)
    ensures
        match command {
            Command::Store { name, secret } => match validated(secret@) {
                Err(e) => r == Step::Done(Err(CommandError::InvalidSecret(e))),
                Ok(_) => r matches Step::Call(StoreRequest::Write { name: n, secret: s })
                    && n@ == name@ && s@ == secret@,
            },
            Command::Generate { name } => r matches Step::Call(StoreRequest::Read { name: n })
                && n@ == name@,
            Command::List => r == Step::Done(Ok(Report::ListingUnsupported)),
            Command::Remove { name } => r matches Step::Call(StoreRequest::Delete { name: n })
                && n@ == name@,
        },
{
    match command {
        Command::Store { name, secret } => match validate_and_normalize(secret.as_str()) {
            Err(e) => Step::Done(Err(CommandError::InvalidSecret(e))),
            Ok(_) => Step::Call(StoreRequest::Write { name, secret }),
        },
        Command::Generate { name } => Step::Call(StoreRequest::Read { name }),
        Command::List => Step::Done(Ok(Report::ListingUnsupported)),
        Command::Remove { name } => Step::Call(StoreRequest::Delete { name }),
    }
}

/// The outcome of `store` once the store has answered the write.
pub fn finish_store(name: String, written: Result<(), StoreError>) -> (r: Result<Report, CommandError>)
    ensures
        match written {
            Ok(()) => r matches Ok(Report::Stored { name: n }) && n@ == name@,
            Err(e) => r == Err::<Report, CommandError>(CommandError::Store(e)),
        },
{
    match written {
        Ok(()) => Ok(Report::Stored { name }),
        Err(e) => Err(CommandError::Store(e)),
    }
}

/// The outcome of `generate` once the store has answered the read, for Unix
/// time `now`.
pub fn finish_generate(config: &TotpConfig, fetched: Result<String, StoreError>, now: u64) -> (r: Result<Report, CommandError>)
    requires
        config.wf(),
    ensures
        match r {
            Ok(report) => report matches Report::Code { code }
                && generate_outcome(*config, fetched_view(fetched), now as nat) == Ok::<Seq<char>, CommandError>(code@)
                && code@.len() == config.digits && is_decimal_digits(code@),
            Err(e) => generate_outcome(*config, fetched_view(fetched), now as nat) == Err::<Seq<char>, CommandError>(e),
        },
{
    match fetched {
        Err(e) => Err(CommandError::Store(e)),
        Ok(secret) => match validate_and_normalize(secret.as_str()) {
            Err(e) => Err(CommandError::InvalidStoredSecret(e)),
            Ok(key) => Ok(Report::Code { code: current_code(config, &key, now) }),
        },
    }
}

/// The outcome of `remove` once the store has answered the delete.
pub fn finish_remove(name: String, deleted: Result<(), StoreError>) -> (r: Result<Report, CommandError>)
    ensures
        match deleted {
            Ok(()) => r matches Ok(Report::Removed { name: n }) && n@ == name@,
            Err(e) => r == Err::<Report, CommandError>(CommandError::Store(e)),
        },
{
    match deleted {
        Ok(()) => Ok(Report::Removed { name }),
        Err(e) => Err(CommandError::Store(e)),
    }
}

/// Once `store` has succeeded, `generate` of the same name succeeds, with the
/// code of the secret that was stored.
pub proof fn lemma_generate_after_store(
    config: TotpConfig,
    store: StoreModel,
    name: Seq<char>,
    secret: Seq<char>,
    now: nat,
)
    requires
        config.wf(),
        run_store(store, name, secret).1 is Ok,
    ensures
        run_generate(config, run_store(store, name, secret).0, name, now)
            == Ok::<Seq<char>, CommandError>(totp_code(config, base32_bytes(secret), now)),
{
    assert(run_store(store, name, secret).0[name] == secret);
}

/// After `store` and then `remove` of a name, `generate` of that name fails
/// with `NotFound`; the `remove` succeeds when the `store` did.
pub proof fn lemma_generate_after_remove(
    config: TotpConfig,
    store: StoreModel,
    name: Seq<char>,
    secret: Seq<char>,
    now: nat,
)
    requires
        config.wf(),
    ensures
        run_store(store, name, secret).1 is Ok ==> run_remove(run_store(store, name, secret).0, name).1 is Ok,
        run_generate(config, run_remove(run_store(store, name, secret).0, name).0, name, now)
            == Err::<Seq<char>, CommandError>(CommandError::Store(StoreError::NotFound)),
{
}

/// A secret that is not base32 is refused before anything is written: the
/// store is left as it was, so a name that had no entry still has none and
/// `generate` of it fails with `NotFound`, not with a decoding error.
pub proof fn lemma_invalid_secret_not_stored(
    config: TotpConfig,
    store: StoreModel,
    name: Seq<char>,
    secret: Seq<char>,
    now: nat,
)
    requires
        config.wf(),
        !is_base32_text(secret),
    ensures
        run_store(store, name, secret)
            == (store, Err::<(), CommandError>(CommandError::InvalidSecret(ValidationError::InvalidEncoding))),
        !store.contains_key(name) ==> run_generate(config, run_store(store, name, secret).0, name, now)
            == Err::<Seq<char>, CommandError>(CommandError::Store(StoreError::NotFound)),
{
}

} // verus!
