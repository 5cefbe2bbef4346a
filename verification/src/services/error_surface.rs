//! The in-app error surface: recent error records, newest first, capped in
//! number, with home-directory text scrubbed from every message.

use vstd::prelude::*;

use crate::ids::{is_random_uuid, AppErrorSeverity, AppTimestamp, EventId};
use crate::text::{
    contains_seq, from_chars, lemma_replace_by_tilde_removes, occurs_at, replace_all,
    replace_all_exec, str_eq, to_chars,
};

verus! {

broadcast use vstd::string::group_string_axioms;

/// Cap on stored records; the newest are kept.
pub const MAX_RECORDS: usize = 200;

#[derive(Clone, Copy, Debug, PartialEq, Eq, Structural)]
pub enum ErrorCategory {
    Network,
    Storage,
    Rendering,
    Config,
    System,
}

pub open spec fn category_label(c: ErrorCategory) -> Seq<char> {
    match c {
        ErrorCategory::Network => "network"@,
        ErrorCategory::Storage => "storage"@,
        ErrorCategory::Rendering => "rendering"@,
        ErrorCategory::Config => "config"@,
        ErrorCategory::System => "system"@,
    }
}

pub open spec fn category_name(c: ErrorCategory) -> Seq<char> {
    match c {
        ErrorCategory::Network => "Network"@,
        ErrorCategory::Storage => "Storage"@,
        ErrorCategory::Rendering => "Rendering"@,
        ErrorCategory::Config => "Config"@,
        ErrorCategory::System => "System"@,
    }
}

impl ErrorCategory {
    /// The lowercase label, as stored and shown.
    pub fn label(&self) -> (r: &'static str)
        ensures
            r@ == category_label(*self),
    {
        match self {
            Self::Network => "network",
            Self::Storage => "storage",
            Self::Rendering => "rendering",
            Self::Config => "config",
            Self::System => "system",
        }
    }

    /// The category a stored label names: the lowercase label or the
    /// variant name.
    pub fn from_label(label: &str) -> (r: Option<ErrorCategory>)
        ensures
            match r {
                Some(c) => category_label(c) == label@ || category_name(c) == label@,
                None => forall|c: ErrorCategory|
                    category_label(c) != label@ && category_name(c) != label@,
            },
    {
        if str_eq(label, "network") || str_eq(label, "Network") {
            Some(Self::Network)
        } else if str_eq(label, "storage") || str_eq(label, "Storage") {
            Some(Self::Storage)
        } else if str_eq(label, "rendering") || str_eq(label, "Rendering") {
            Some(Self::Rendering)
        } else if str_eq(label, "config") || str_eq(label, "Config") {
            Some(Self::Config)
        } else if str_eq(label, "system") || str_eq(label, "System") {
            Some(Self::System)
        } else {
            None
        }
    }
}

#[derive(Clone, Copy, Debug, PartialEq, Eq, Structural)]
pub enum ErrorAction {
    Retry,
    OpenSettings,
    Dismiss,
}

#[derive(Clone, Debug, PartialEq)]
pub struct ErrorRecord {
    pub id: EventId,
    pub occurred_at: AppTimestamp,
    pub severity: AppErrorSeverity,
    pub category: ErrorCategory,
    pub message: String,
    pub actions: Vec<ErrorAction>,
}

/// In-memory error surface state (primary store), newest record first.
#[derive(Clone, Debug)]
pub struct ErrorSurfaceState {
    pub records: Vec<ErrorRecord>,
}

/// `text` with every occurrence of a non-empty `home` replaced by `~`.
pub open spec fn home_scrubbed(text: Seq<char>, home: Seq<char>) -> Seq<char> {
    if home.len() == 0 {
        text
    } else {
        replace_all(text, home, seq!['~'])
    }
}

/// Replace home-directory text with `~` (error messages may embed paths).
pub fn scrub_home_with(text: &str, home: &str) -> (r: String)
    ensures
        r@ == home_scrubbed(text@, home@),
{
    let t = to_chars(text);
    let h = to_chars(home);
    if h.len() == 0 {
        from_chars(t.as_slice())
    } else {
        let tilde: [char; 1] = ['~'];
        assert(tilde@ =~= seq!['~']);
        let out = replace_all_exec(t.as_slice(), h.as_slice(), &tilde);
        from_chars(out.as_slice())
    }
}

/// Law: a scrubbed error message never shows the home directory (one that
/// is not empty and holds no `~`).
pub proof fn lemma_home_scrub_hides_home(text: Seq<char>, home: Seq<char>)
    requires
        home.len() > 0,
        !home.contains('~'),
    ensures
        !contains_seq(home_scrubbed(text, home), home),
{
    assert forall|i: int| !occurs_at(home_scrubbed(text, home), home, i) by {
        lemma_replace_by_tilde_removes(text, home, i);
    }
}

impl Default for ErrorSurfaceState {
    fn default() -> (r: Self)
        ensures
            r.records@.len() == 0,
    {
        ErrorSurfaceState { records: Vec::new() }
    }
}

impl ErrorSurfaceState {
    /// Store `record` as the newest one, dropping the oldest beyond
    /// [`MAX_RECORDS`].
    pub fn push_record(&mut self, record: ErrorRecord)
        ensures
            final(self).records@ == if old(self).records@.len() < MAX_RECORDS {
                seq![record] + old(self).records@
            } else {
                (seq![record] + old(self).records@).take(MAX_RECORDS as int)
            },
            final(self).records@.len() <= MAX_RECORDS,
    {
        self.records.insert(0, record);
        if self.records.len() > MAX_RECORDS {
            self.records.truncate(MAX_RECORDS);
        }
        assert(final(self).records@ =~= if old(self).records@.len() < MAX_RECORDS {
            seq![record] + old(self).records@
        } else {
            (seq![record] + old(self).records@).take(MAX_RECORDS as int)
        });
    }

    /// Record a reported error as the newest one: the message is scrubbed of
    /// `home` (it reaches the screen, the database and crash reports), and
    /// the record gets a fresh id and the current time. Returns a copy of
    /// the stored record, for persisting it.
    pub fn report(
        &mut self,
        message: &str,
        home: &str,
        severity: AppErrorSeverity,
        category: ErrorCategory,
        actions: Vec<ErrorAction>,
    ) -> (r: ErrorRecord)
        ensures
            is_random_uuid(r.id.0),
            r.occurred_at.0 >= 0,
            r.occurred_at.1 < 1_000_000_000,
            r.message@ == home_scrubbed(message@, home@),
            r.severity == severity,
            r.category == category,
            r.actions@ == actions@,
            final(self).records@.len() <= MAX_RECORDS,
            final(self).records@.len() > 0,
            final(self).records@[0].id == r.id,
            final(self).records@[0].occurred_at == r.occurred_at,
            final(self).records@[0].severity == r.severity,
            final(self).records@[0].category == r.category,
            final(self).records@[0].message@ == r.message@,
            final(self).records@[0].actions@ == r.actions@,
            final(self).records@.skip(1) == if old(self).records@.len() < MAX_RECORDS {
                old(self).records@
            } else {
                old(self).records@.take(MAX_RECORDS - 1)
            },
    {
        let record = ErrorRecord {
            id: EventId::new(),
            occurred_at: AppTimestamp::now(),
            severity,
            category,
            message: scrub_home_with(message, home),
            actions,
        };
        let copy = record.clone_record();
        let ghost before = self.records@;
        self.push_record(record);
        assert(self.records@.skip(1) =~= if before.len() < MAX_RECORDS {
            before
        } else {
            before.take(MAX_RECORDS - 1)
        });
        copy
    }

    /// Drop every record with the given id, keeping the others in order.
    pub fn dismiss(&mut self, id: EventId)
        ensures
            final(self).records@ == old(self).records@.filter(|r: ErrorRecord| r.id != id),
    {
        let ghost pred = |r: ErrorRecord| r.id != id;
        let mut kept: Vec<ErrorRecord> = Vec::new();
        let mut rest: Vec<ErrorRecord> = Vec::new();
        std::mem::swap(&mut rest, &mut self.records);
        let ghost all = rest@;
        let ghost mut k: int = 0;
        assert(all.skip(0) =~= all);
        while rest.len() > 0
            invariant
                0 <= k <= all.len(),
                pred == (|r: ErrorRecord| r.id != id),
                rest@ == all.skip(k),
                kept@ == all.take(k).filter(pred),
            decreases rest.len(),
        {
            let r = rest.remove(0);
            proof {
                reveal_with_fuel(Seq::<_>::filter, 1);
                assert(all.take(k + 1).drop_last() =~= all.take(k));
                assert(r == all[k]);
                assert(all.skip(k + 1) =~= all.skip(k).skip(1));
            }
            let ghost t = all.take(k + 1);
            assert(t.last() == all[k]);
            if r.id != id {
                assert(pred(t.last()));
                assert(t.filter(pred) == t.drop_last().filter(pred).push(t.last()));
                kept.push(r);
            } else {
                assert(!pred(t.last()));
                assert(t.filter(pred) == t.drop_last().filter(pred));
            }
            proof {
                k = k + 1;
            }
        }
        assert(all.take(k) =~= all);
        self.records = kept;
    }

    /// The number of stored records.
    pub fn record_count(&self) -> (r: usize)
        ensures
            r == self.records@.len(),
    {
        self.records.len()
    }

    /// The newest record, if any.
    pub fn latest(&self) -> (r: Option<&ErrorRecord>)
        ensures
            r == if self.records@.len() > 0 {
                Some(&self.records@[0])
            } else {
                None
            },
    {
        if self.records.len() > 0 {
            Some(&self.records[0])
        } else {
            None
        }
    }

    /// The message of the newest record, if any.
    pub fn latest_message(&self) -> (r: Option<String>)
        ensures
            match r {
                Some(m) => self.records@.len() > 0 && m@ == self.records@[0].message@,
                None => self.records@.len() == 0,
            },
    {
        if self.records.len() > 0 {
            Some(crate::text::owned(self.records[0].message.as_str()))
        } else {
            None
        }
    }
}

impl ErrorRecord {
    /// A copy of the record.
    pub fn clone_record(&self) -> (r: ErrorRecord)
        ensures
            r.id == self.id,
            r.occurred_at == self.occurred_at,
            r.severity == self.severity,
            r.category == self.category,
            r.message@ == self.message@,
            r.actions@ == self.actions@,
    {
        let mut actions: Vec<ErrorAction> = Vec::new();
        let mut i: usize = 0;
        while i < self.actions.len()
            invariant
                i <= self.actions.len(),
                actions@ == self.actions@.take(i as int),
            decreases self.actions.len() - i,
        {
            actions.push(self.actions[i]);
            assert(self.actions@.take(i + 1) =~= self.actions@.take(i as int).push(
                self.actions@[i as int],
            ));
            i = i + 1;
        }
        assert(self.actions@.take(self.actions.len() as int) =~= self.actions@);
        ErrorRecord {
            id: self.id,
            occurred_at: self.occurred_at,
            severity: self.severity,
            category: self.category,
            message: crate::text::owned(self.message.as_str()),
            actions,
        }
    }
}

} // verus!
