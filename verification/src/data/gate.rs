//! Why a store may be read and not written.
use crate::text::{same_text, Text};
use vstd::prelude::*;

verus! {

/// A reason the store's own format gate refuses a mutation for.
#[derive(Clone, Copy, Debug, PartialEq, Eq, Structural)]
pub enum VersionRefusal {
    /// The store's format is older than the binary's.
    NeedsMigration,
    /// A migration is in flight, or died holding the marker that says so.
    MigrationInProgress,
    /// The store's format is newer than the binary understands.
    StoreTooNew,
    /// The recorded format version cannot be parsed.
    Unreadable,
}

/// The store's own words for each of the format gate's refusals, the remedy included,
/// which only the store knows.
///
/// Invariant: no two refusals are explained in the same words.
#[derive(Debug, PartialEq, Eq)]
pub struct GateWords {
    needs_migration: String,
    migration_in_progress: String,
    store_too_new: String,
    unreadable: String,
}

impl GateWords {
    #[verifier::type_invariant]
    spec fn tells_apart(self) -> bool {
        all_different(
            self.needs_migration@,
            self.migration_in_progress@,
            self.store_too_new@,
            self.unreadable@,
        )
    }

    /// The words for one refusal.
    pub closed spec fn worded(self, refusal: VersionRefusal) -> Text {
        match refusal {
            VersionRefusal::NeedsMigration => self.needs_migration@,
            VersionRefusal::MigrationInProgress => self.migration_in_progress@,
            VersionRefusal::StoreTooNew => self.store_too_new@,
            VersionRefusal::Unreadable => self.unreadable@,
        }
    }

    /// The words for a store that needs migrating, one whose migration is in flight,
    /// one newer than the binary and one whose version cannot be read, or nothing
    /// where two of the four are the same.
    pub fn new(
        needs_migration: String,
        migration_in_progress: String,
        store_too_new: String,
        unreadable: String,
    ) -> (r: Option<GateWords>)
        ensures
            r is Some <==> all_different(
                needs_migration@,
                migration_in_progress@,
                store_too_new@,
                unreadable@,
            ),
            r matches Some(words) ==> {
                &&& words.worded(VersionRefusal::NeedsMigration) == needs_migration@
                &&& words.worded(VersionRefusal::MigrationInProgress) == migration_in_progress@
                &&& words.worded(VersionRefusal::StoreTooNew) == store_too_new@
                &&& words.worded(VersionRefusal::Unreadable) == unreadable@
            },
    {
        if same_text(&needs_migration, &migration_in_progress) || same_text(
            &needs_migration,
            &store_too_new,
        ) || same_text(&needs_migration, &unreadable) || same_text(
            &migration_in_progress,
            &store_too_new,
        ) || same_text(&migration_in_progress, &unreadable) || same_text(
            &store_too_new,
            &unreadable,
        ) {
            None
        } else {
            Some(GateWords { needs_migration, migration_in_progress, store_too_new, unreadable })
        }
    }
}

/// Whether no two of four texts are the same.
pub open spec fn all_different(a: Text, b: Text, c: Text, d: Text) -> bool {
    a != b && a != c && a != d && b != c && b != d && c != d
}

/// Why this binary may read a store but not write it.
///
/// Read-only is a state of the store, never an option of the browser's: the
/// store's own format gate decides it. A store enters and leaves the state under a
/// running browser, so this is a question to ask again rather than a verdict to
/// record once.
///
/// One variant per reason the format gate refuses a mutation for, because the remedy
/// differs by reason.
#[derive(Clone, Copy, Debug, PartialEq, Eq, Structural)]
pub enum ReadOnly {
    /// The store's format is older than this binary's: readable, and writable
    /// only once it has been migrated.
    NeedsMigration,
    /// A migration is in flight, or died holding the marker that says so: the
    /// store is read-only for everyone but the migrator until it commits.
    MigrationInProgress,
    /// The store's format is newer than this binary understands, so nothing may
    /// be written to it by this binary at all.
    NeedsNewerLoti,
    /// The recorded format version cannot be parsed, so no rule about the store
    /// can be applied and nothing may be written.
    VersionUnreadable,
}

impl ReadOnly {
    /// Every reason a store may be read and not written, so a surface that has
    /// to cover them all — one marker each — cannot then miss one.
    pub const ALL: [ReadOnly; 4] = [
        ReadOnly::NeedsMigration,
        ReadOnly::MigrationInProgress,
        ReadOnly::NeedsNewerLoti,
        ReadOnly::VersionUnreadable,
    ];

    /// The format gate's refusal the state stands for.
    pub open spec fn stands_for(self) -> VersionRefusal {
        match self {
            ReadOnly::NeedsMigration => VersionRefusal::NeedsMigration,
            ReadOnly::MigrationInProgress => VersionRefusal::MigrationInProgress,
            ReadOnly::NeedsNewerLoti => VersionRefusal::StoreTooNew,
            ReadOnly::VersionUnreadable => VersionRefusal::Unreadable,
        }
    }

    /// The format gate's refusal this state stands for. One mapping, read in both
    /// directions, so a state and the words that explain it cannot come to mean
    /// different things.
    pub fn gate_refusal(self) -> (r: VersionRefusal)
        ensures
            r == self.stands_for(),
    {
        match self {
            ReadOnly::NeedsMigration => VersionRefusal::NeedsMigration,
            ReadOnly::MigrationInProgress => VersionRefusal::MigrationInProgress,
            ReadOnly::NeedsNewerLoti => VersionRefusal::StoreTooNew,
            ReadOnly::VersionUnreadable => VersionRefusal::Unreadable,
        }
    }

    /// The store's own words for this refusal, so a reader is told why in the
    /// sentence the command line tells them. No other state is told in the same
    /// words.
    pub fn refusal(self, words: &GateWords) -> (r: String)
        ensures
            r@ == words.worded(self.stands_for()),
            forall|other: ReadOnly|
                other != self ==> #[trigger] words.worded(other.stands_for()) != r@,
    {
        proof {
            use_type_invariant(words);
        }
        match self.gate_refusal() {
            VersionRefusal::NeedsMigration => words.needs_migration.clone(),
            VersionRefusal::MigrationInProgress => words.migration_in_progress.clone(),
            VersionRefusal::StoreTooNew => words.store_too_new.clone(),
            VersionRefusal::Unreadable => words.unreadable.clone(),
        }
    }
}

/// Whether a store may be written, and why not where it may not, given its own
/// gate's verdict.
///
/// The answer is a snapshot and never a licence: the store's recorded version can
/// change between this question and a write.
pub fn read_only(verdict: Result<(), VersionRefusal>) -> (r: Option<ReadOnly>)
    ensures
        (match verdict {
            Ok(()) => r is None,
            Err(refusal) => r matches Some(state) && state.stands_for() == refusal,
        }),
{
    match verdict {
        Ok(()) => None,
        Err(VersionRefusal::NeedsMigration) => Some(ReadOnly::NeedsMigration),
        Err(VersionRefusal::MigrationInProgress) => Some(ReadOnly::MigrationInProgress),
        Err(VersionRefusal::StoreTooNew) => Some(ReadOnly::NeedsNewerLoti),
        Err(VersionRefusal::Unreadable) => Some(ReadOnly::VersionUnreadable),
    }
}

/// The format gate's reasons and the read-only states are one mapping, and every state
/// is listed.
pub proof fn a_state_and_its_refusal_are_one_mapping(a: ReadOnly, b: ReadOnly)
    ensures
        a.stands_for() == b.stands_for() ==> a == b,
        ReadOnly::ALL@.contains(a),
{
    let all = ReadOnly::ALL@;
    assert(all[0] == ReadOnly::NeedsMigration && all[1] == ReadOnly::MigrationInProgress && all[2]
        == ReadOnly::NeedsNewerLoti && all[3] == ReadOnly::VersionUnreadable);
}

/// Each state stands for the reason the format gate gave it for, and no other.
pub proof fn each_state_stands_for_its_own_reason()
    ensures
        ReadOnly::NeedsMigration.stands_for() == VersionRefusal::NeedsMigration,
        ReadOnly::MigrationInProgress.stands_for() == VersionRefusal::MigrationInProgress,
        ReadOnly::NeedsNewerLoti.stands_for() == VersionRefusal::StoreTooNew,
        ReadOnly::VersionUnreadable.stands_for() == VersionRefusal::Unreadable,
{
}

} // verus!
