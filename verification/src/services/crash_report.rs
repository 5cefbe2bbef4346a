//! Crash reports: what a panic leaves behind for upload, capped in size and
//! with the user's home directory scrubbed out of every text field.

use vstd::prelude::*;

use crate::ids::{
    is_random_uuid, is_rfc3339_since_epoch, now_rfc3339, random_uuid_text, uuid_hyphenated,
};
use crate::state::lex::{
    lemma_lex_asymmetric, lemma_lex_irreflexive, lemma_lex_total, lemma_lex_transitive, lex_less,
    lex_lt,
};
use crate::text::{
    contains_seq, lemma_replace_by_tilde_removes, lemma_take_chars_occurrence, occurs_at, owned,
    replace_all, replace_all_exec, take_chars, take_chars_exec, to_chars, from_chars,
};

verus! {

broadcast use vstd::string::group_string_axioms;

pub const MAX_PANIC_MESSAGE_CHARS: usize = 2048;

pub const MAX_BACKTRACE_CHARS: usize = 8192;

pub const MAX_RECENT_ERRORS: usize = 20;

pub const MAX_RECENT_ERROR_CHARS: usize = 512;

/// A crash report as written to disk, stored, and uploaded.
#[derive(Clone, Debug, PartialEq)]
pub struct CrashReport {
    pub id: String,
    pub panic_message: String,
    pub backtrace: String,
    pub app_version: String,
    pub os: String,
    pub arch: String,
    pub timestamp: String,
    pub render_path: bool,
    pub recent_errors: Vec<String>,
}

/// Facts about the running process that a report records: the user's home
/// directory (scrubbed from every text), the app version, and the target's
/// operating system and architecture names.
#[derive(Clone, Debug)]
pub struct CrashEnvironment {
    pub home: String,
    pub app_version: String,
    pub os: String,
    pub arch: String,
}

/// `text` with every occurrence of `home` replaced by `~` (when `home` is not
/// empty), cut to `max_chars` characters.
pub open spec fn scrubbed(text: Seq<char>, home: Seq<char>, max_chars: nat) -> Seq<char> {
    let replaced = if home.len() == 0 {
        text
    } else {
        replace_all(text, home, seq!['~'])
    };
    take_chars(replaced, max_chars)
}

/// Replace home-directory text with `~` and cap the length (reports get
/// uploaded).
pub fn scrub(text: &str, home: &str, max_chars: usize) -> (r: String)
    ensures
        r@ == scrubbed(text@, home@, max_chars as nat),
{
    let t = to_chars(text);
    let h = to_chars(home);
    let replaced = if h.len() == 0 {
        t
    } else {
        let tilde: [char; 1] = ['~'];
        assert(tilde@ =~= seq!['~']);
        replace_all_exec(t.as_slice(), h.as_slice(), &tilde)
    };
    let capped = take_chars_exec(replaced.as_slice(), max_chars);
    from_chars(capped.as_slice())
}

impl CrashReport {
    /// A new report with a fresh id and the current time; every text field
    /// is scrubbed of `env.home` and capped, and at most
    /// [`MAX_RECENT_ERRORS`] recent errors are kept.
    pub fn new(
        panic_message: String,
        backtrace: String,
        render_path: bool,
        recent_errors: Vec<String>,
        env: &CrashEnvironment,
    ) -> (r: Self)
        ensures
            r.id@.len() == 36,
            exists|b: u128| is_random_uuid(b) && r.id@ == uuid_hyphenated(b),
            is_rfc3339_since_epoch(r.timestamp@),
            r.timestamp@.len() >= 25,
            r.panic_message@ == scrubbed(
                panic_message@,
                env.home@,
                MAX_PANIC_MESSAGE_CHARS as nat,
            ),
            r.backtrace@ == scrubbed(backtrace@, env.home@, MAX_BACKTRACE_CHARS as nat),
            r.app_version@ == env.app_version@,
            r.os@ == env.os@,
            r.arch@ == env.arch@,
            r.render_path == render_path,
            r.recent_errors@.len() == if recent_errors@.len() < MAX_RECENT_ERRORS {
                recent_errors@.len()
            } else {
                MAX_RECENT_ERRORS as nat
            },
            forall|i: int|
                0 <= i < r.recent_errors@.len() ==> #[trigger] r.recent_errors@[i]@ == scrubbed(
                    recent_errors@[i]@,
                    env.home@,
                    MAX_RECENT_ERROR_CHARS as nat,
                ),
    {
        let mut errors: Vec<String> = Vec::new();
        let mut i: usize = 0;
        while i < recent_errors.len() && i < MAX_RECENT_ERRORS
            invariant
                i <= recent_errors.len(),
                i <= MAX_RECENT_ERRORS,
                errors@.len() == i,
                forall|j: int|
                    0 <= j < i ==> #[trigger] errors@[j]@ == scrubbed(
                        recent_errors@[j]@,
                        env.home@,
                        MAX_RECENT_ERROR_CHARS as nat,
                    ),
            decreases recent_errors.len() - i,
        {
            errors.push(scrub(recent_errors[i].as_str(), env.home.as_str(), MAX_RECENT_ERROR_CHARS));
            i = i + 1;
        }
        CrashReport {
            id: random_uuid_text(),
            panic_message: scrub(panic_message.as_str(), env.home.as_str(), MAX_PANIC_MESSAGE_CHARS),
            backtrace: scrub(backtrace.as_str(), env.home.as_str(), MAX_BACKTRACE_CHARS),
            app_version: owned(env.app_version.as_str()),
            os: owned(env.os.as_str()),
            arch: owned(env.arch.as_str()),
            timestamp: now_rfc3339(),
            render_path,
            recent_errors: errors,
        }
    }
}

/// Crash-report service state shown on the diagnostics page.
#[derive(Clone, Debug)]
pub struct CrashReportSnapshot {
    pub pending_count: usize,
    pub last_crash_timestamp: Option<String>,
    pub upload_endpoint: String,
    pub last_upload_error: Option<String>,
}

impl Default for CrashReportSnapshot {
    fn default() -> (r: Self)
        ensures
            r.pending_count == 0,
            r.last_crash_timestamp is None,
            r.upload_endpoint@.len() == 0,
            r.last_upload_error is None,
    {
        CrashReportSnapshot {
            pending_count: 0,
            last_crash_timestamp: None,
            upload_endpoint: String::new(),
            last_upload_error: None,
        }
    }
}

impl CrashReportSnapshot {
    /// The snapshot at start-up: only the upload endpoint is known.
    pub fn with_endpoint(endpoint: &str) -> (r: Self)
        ensures
            r.pending_count == 0,
            r.last_crash_timestamp is None,
            r.upload_endpoint@ == endpoint@,
            r.last_upload_error is None,
    {
        CrashReportSnapshot {
            pending_count: 0,
            last_crash_timestamp: None,
            upload_endpoint: owned(endpoint),
            last_upload_error: None,
        }
    }

    /// Whether pending reports are to be uploaded at all: only when an
    /// endpoint is configured.
    pub fn upload_enabled(&self) -> (r: bool)
        ensures
            r == (self.upload_endpoint@.len() > 0),
    {
        !self.upload_endpoint.as_str().is_empty()
    }

    /// Whether an upload response with HTTP status `status` counts as
    /// delivered, so that the report is marked uploaded: any 2xx status.
    pub fn upload_accepted(status: u16) -> (r: bool)
        ensures
            r == (200 <= status < 300),
    {
        200 <= status && status < 300
    }

    /// Records what a reload of the pending reports (newest first) found:
    /// their number and the newest timestamp; a failed reload counts as
    /// none pending.
    pub fn record_pending(&mut self, latest: Result<Vec<CrashReport>, String>)
        ensures
            final(self).upload_endpoint@ == old(self).upload_endpoint@,
            crate::capabilities::opt_chars(final(self).last_upload_error)
                == crate::capabilities::opt_chars(old(self).last_upload_error),
            match latest {
                Ok(v) => final(self).pending_count == v@.len() && crate::capabilities::opt_chars(
                    final(self).last_crash_timestamp,
                ) == if v@.len() > 0 {
                    Some(v@[0].timestamp@)
                } else {
                    None
                },
                Err(_) => final(self).pending_count == 0 && final(self).last_crash_timestamp is None,
            },
    {
        match latest {
            Ok(v) => {
                self.pending_count = v.len();
                self.last_crash_timestamp = if v.len() > 0 {
                    Some(owned(v[0].timestamp.as_str()))
                } else {
                    None
                };
            },
            Err(_) => {
                self.pending_count = 0;
                self.last_crash_timestamp = None;
            },
        }
    }
}

/// No report is older than one after it: timestamps (RFC 3339 text, which
/// sorts as it reads) never increase along `s`.
pub open spec fn newest_first(s: Seq<CrashReport>) -> bool {
    forall|i: int, j: int|
        0 <= i < j < s.len() ==> !lex_lt(#[trigger] s[i].timestamp@, #[trigger] s[j].timestamp@)
}

/// `dst` holds the reports of `src`, each exactly once: `idx[k]` is the
/// position in `src` of `dst[k]`. Reports with equal timestamps keep the
/// order they had in `src`.
pub open spec fn stable_reordering(src: Seq<CrashReport>, dst: Seq<CrashReport>, idx: Seq<int>) -> bool {
    &&& idx.len() == dst.len()
    &&& dst.len() == src.len()
    &&& forall|k: int| 0 <= k < idx.len() ==> 0 <= #[trigger] idx[k] < src.len()
    &&& forall|k: int| 0 <= k < idx.len() ==> #[trigger] dst[k] == src[idx[k]]
    &&& forall|k: int, l: int| 0 <= k < l < idx.len() ==> #[trigger] idx[k] != #[trigger] idx[l]
    &&& forall|k: int, l: int|
        0 <= k < l < idx.len() && (#[trigger] dst[k]).timestamp@ == (#[trigger] dst[l]).timestamp@
            ==> idx[k] < idx[l]
}

/// The same reports, newest first; reports with equal timestamps keep their
/// order.
pub fn sort_newest_first(reports: Vec<CrashReport>) -> (r: Vec<CrashReport>)
    ensures
        newest_first(r@),
        r@.to_multiset() == reports@.to_multiset(),
        exists|idx: Seq<int>| stable_reordering(reports@, r@, idx),
{
    let ghost src = reports@;
    let mut rest = reports;
    let mut out: Vec<CrashReport> = Vec::new();
    let ghost mut idx: Seq<int> = Seq::empty();
    proof {
        vstd::seq_lib::to_multiset_len(out@);
        vstd::multiset::lemma_multiset_empty_len(out@.to_multiset());
        assert(out@.to_multiset().add(rest@.to_multiset()) =~= rest@.to_multiset());
        assert(src.skip(0) =~= src);
    }
    while rest.len() > 0
        invariant
            newest_first(out@),
            out@.to_multiset().add(rest@.to_multiset()) == src.to_multiset(),
            out@.len() + rest@.len() == src.len(),
            rest@ == src.skip(out@.len() as int),
            idx.len() == out@.len(),
            forall|k: int| 0 <= k < idx.len() ==> 0 <= #[trigger] idx[k] < out@.len(),
            forall|k: int| 0 <= k < idx.len() ==> #[trigger] out@[k] == src[idx[k]],
            forall|k: int, l: int| 0 <= k < l < idx.len() ==> #[trigger] idx[k] != #[trigger] idx[l],
            forall|k: int, l: int|
                0 <= k < l < idx.len() && (#[trigger] out@[k]).timestamp@ == (
                #[trigger] out@[l]).timestamp@ ==> idx[k] < idx[l],
        decreases rest.len(),
    {
        let ghost rest_before = rest@;
        let ghost n_done = out@.len() as int;
        let item = rest.remove(0);
        assert(rest_before.remove(0) == rest@);
        assert(item == src[n_done]);
        assert(rest@ =~= src.skip(n_done + 1));
        let ts = to_chars(item.timestamp.as_str());
        let mut p: usize = 0;
        while p < out.len() && !lex_less(to_chars(out[p].timestamp.as_str()).as_slice(), ts.as_slice())
            invariant
                p <= out.len(),
                ts@ == item.timestamp@,
                forall|i: int| 0 <= i < p ==> !lex_lt(#[trigger] out@[i].timestamp@, item.timestamp@),
            decreases out.len() - p,
        {
            p = p + 1;
        }
        let ghost before = out@;
        let ghost old_idx = idx;
        let ghost it = item;
        proof {
            assert forall|j: int| p <= j < before.len() implies lex_lt(
                #[trigger] before[j].timestamp@,
                it.timestamp@,
            ) by {
                if j > p {
                    assert(!lex_lt(before[p as int].timestamp@, before[j].timestamp@));
                    lemma_lex_total(before[p as int].timestamp@, before[j].timestamp@);
                    lemma_lex_transitive(
                        before[j].timestamp@,
                        before[p as int].timestamp@,
                        it.timestamp@,
                    );
                }
            }
        }
        out.insert(p, item);
        proof {
            idx = old_idx.insert(p as int, n_done);
        }
        assert(out@ == before.insert(p as int, it));
        assert(out@.remove(p as int) == before);
        assert(out@.to_multiset().add(rest@.to_multiset()) =~= before.to_multiset().add(
            rest_before.to_multiset(),
        )) by {
            assert(it == rest_before[0]);
            vstd::seq_lib::to_multiset_remove(rest_before, 0);
            vstd::seq_lib::to_multiset_insert(before, p as int, it);
            vstd::seq_lib::to_multiset_contains(rest_before, it);
            assert(rest_before[0] == it);
            assert(rest_before.contains(it));
        }
        assert forall|i: int, j: int| 0 <= i < j < out@.len() implies !lex_lt(
            #[trigger] out@[i].timestamp@,
            #[trigger] out@[j].timestamp@,
        ) by {
            if j < p {
                assert(!lex_lt(before[i].timestamp@, before[j].timestamp@));
            } else if j == p {
                assert(!lex_lt(before[i].timestamp@, it.timestamp@));
            } else if i < p {
                assert(!lex_lt(before[i].timestamp@, before[j - 1].timestamp@));
            } else if i == p {
                assert(lex_lt(before[j - 1].timestamp@, it.timestamp@));
                lemma_lex_asymmetric(before[j - 1].timestamp@, it.timestamp@);
            } else {
                assert(!lex_lt(before[i - 1].timestamp@, before[j - 1].timestamp@));
            }
        }
        assert forall|k: int| 0 <= k < idx.len() implies 0 <= #[trigger] idx[k] < out@.len() by {
            if k < p {
                assert(idx[k] == old_idx[k]);
            } else if k > p {
                assert(idx[k] == old_idx[k - 1]);
            }
        }
        assert forall|k: int| 0 <= k < idx.len() implies #[trigger] out@[k] == src[idx[k]] by {
            if k < p {
                assert(idx[k] == old_idx[k]);
                assert(out@[k] == before[k]);
            } else if k > p {
                assert(idx[k] == old_idx[k - 1]);
                assert(out@[k] == before[k - 1]);
            }
        }
        assert forall|k: int, l: int| 0 <= k < l < idx.len() implies #[trigger] idx[k]
            != #[trigger] idx[l] by {
            if k < p && l < p {
                assert(old_idx[k] != old_idx[l]);
            } else if k < p && l > p {
                assert(old_idx[k] != old_idx[l - 1]);
            } else if k > p && l > p {
                assert(old_idx[k - 1] != old_idx[l - 1]);
            } else if k == p {
                assert(old_idx[l - 1] < n_done);
            } else {
                assert(old_idx[k] < n_done);
            }
        }
        assert forall|k: int, l: int|
            0 <= k < l < idx.len() && (#[trigger] out@[k]).timestamp@ == (
            #[trigger] out@[l]).timestamp@ implies idx[k] < idx[l] by {
            if k < p && l < p {
                assert(before[k] == out@[k] && before[l] == out@[l]);
                assert(old_idx[k] < old_idx[l]);
            } else if k < p && l > p {
                assert(before[k] == out@[k] && before[l - 1] == out@[l]);
                assert(old_idx[k] < old_idx[l - 1]);
            } else if k > p && l > p {
                assert(before[k - 1] == out@[k] && before[l - 1] == out@[l]);
                assert(old_idx[k - 1] < old_idx[l - 1]);
            } else if k == p {
                assert(out@[l] == before[l - 1]);
                assert(lex_lt(before[l - 1].timestamp@, it.timestamp@));
                lemma_lex_irreflexive(it.timestamp@);
            } else {
                assert(old_idx[k] < n_done);
            }
        }
    }
    proof {
        vstd::seq_lib::to_multiset_len(rest@);
        vstd::multiset::lemma_multiset_empty_len(rest@.to_multiset());
        assert(out@.to_multiset().add(rest@.to_multiset()) =~= out@.to_multiset());
        assert(stable_reordering(src, out@, idx));
    }
    out
}

/// Law: a scrubbed text never shows the home directory (one that is not
/// empty and holds no `~`), so no report that leaves the machine names it.
pub proof fn lemma_scrub_hides_home(text: Seq<char>, home: Seq<char>, max_chars: nat)
    requires
        home.len() > 0,
        !home.contains('~'),
    ensures
        !contains_seq(scrubbed(text, home, max_chars), home),
{
    assert forall|i: int| !occurs_at(scrubbed(text, home, max_chars), home, i) by {
        lemma_replace_by_tilde_removes(text, home, i);
        if occurs_at(scrubbed(text, home, max_chars), home, i) {
            lemma_take_chars_occurrence(replace_all(text, home, seq!['~']), home, max_chars, i);
        }
    }
}

/// Law: scrubbing never leaves a text longer than its cap.
pub proof fn lemma_scrub_caps_length(text: Seq<char>, home: Seq<char>, max_chars: nat)
    ensures
        scrubbed(text, home, max_chars).len() <= max_chars,
{
}

} // verus!
