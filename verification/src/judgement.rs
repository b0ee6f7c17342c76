//! The rule-judgement engine.
//!
//! A pull request's facts — commit count, commit messages, label names — are
//! checked against a fixed policy: a commit-count ceiling, forbidden
//! commit-message prefixes, forbidden labels, and one override label that
//! force-approves everything.  Violations accumulate:
//! the first one fixes the reported problem text, later ones only raise the
//! count, and the override label discards them all.

use vstd::prelude::*;

use crate::chars::{
    char_is_alphanumeric, chars_start_with_str, chars_to_string, lower_char, lower_chars,
    seq_starts_with, str_eq, to_lower_char, unicode_alphanumeric,
};

verus! {

use vstd::string::{StrSliceExecFns, StringExecFns};

/// Pull requests with more commits than this are asked to rebase.
pub const MAX_COMMITS: u64 = 50;

/// The facts handed to policy evaluation.  Every field defaults to
/// empty/zero, and the policy still runs on partial data.
#[derive(Debug)]
pub struct Intel {
    pub label_names: Vec<String>,
    pub total_commits: u64,
    pub commit_messages: Vec<String>,
}

/// The verdict for one pull request.
#[derive(Debug, PartialEq, Eq)]
pub enum Judgement {
    Approved,
    NotApproved { main_problem: String, total_violations: usize },
    ForceApproved(String),
}

/// The abstract accumulator state that a `Judgement` stands for: untouched,
/// accumulating violations, or force-approved.
pub enum JState {
    Clean,
    Accum { main: Seq<char>, count: nat },
    Forced { reason: Seq<char> },
}

/// The abstract value of a `Judgement`.
pub open spec fn j_view(j: Judgement) -> JState {
    match j {
        Judgement::Approved => JState::Clean,
        Judgement::NotApproved { main_problem, total_violations } => (JState::Accum {
            main: main_problem@,
            count: total_violations as nat,
        }),
        Judgement::ForceApproved(reason) => (JState::Forced { reason: reason@ }),
    }
}

/// The violation count an accumulator state carries.
pub open spec fn jcount(s: JState) -> nat {
    match s {
        JState::Accum { count, .. } => count,
        _ => 0,
    }
}

/// Recording one violation: the first sets the problem text, later ones only
/// count, and a force-approved state swallows everything.
pub open spec fn add_problem_spec(s: JState, text: Seq<char>) -> JState {
    match s {
        JState::Forced { .. } => s,
        JState::Clean => (JState::Accum { main: text, count: 1 }),
        JState::Accum { main, count } => (JState::Accum { main, count: count + 1 }),
    }
}

/// A commit message truncated to its first 29 characters when it runs past 30.
pub open spec fn trunc_chars(s: Seq<char>) -> Seq<char> {
    if s.len() > 30 {
        s.subrange(0, 29)
    } else {
        s
    }
}

/// The normal form a commit message is checked in: truncated, then
/// ASCII-lowercased.
pub open spec fn norm_msg(m: Seq<char>) -> Seq<char> {
    lower_chars(trunc_chars(m))
}

/// What one character of a label contributes to the label's normal form:
/// alphanumerics are lowercased, the separators space/hyphen/slash/colon
/// become a space, everything else is dropped.
pub open spec fn norm_label_char(c: char) -> Seq<char> {
    if unicode_alphanumeric(c) {
        seq![lower_char(c)]
    } else if c == ' ' || c == '-' || c == '/' || c == ':' {
        seq![' ']
    } else {
        Seq::empty()
    }
}

/// The normal form of a label name.
pub open spec fn normalize_chars(s: Seq<char>) -> Seq<char>
    decreases s.len(),
{
    if s.len() == 0 {
        Seq::empty()
    } else {
        norm_label_char(s.first()) + normalize_chars(s.drop_first())
    }
}

/// The problem text recorded for a forbidden commit message.
pub open spec fn rebase_text(norm: Seq<char>) -> Seq<char> {
    "Rebase away \""@ + norm + "\""@
}

/// The problem text recorded for a forbidden label.
pub open spec fn remove_label_text(name: Seq<char>) -> Seq<char> {
    "Remove the \""@ + name + "\" label"@
}

/// The reason reported when the override label force-approves.
pub open spec fn tagged_text(name: Seq<char>) -> Seq<char> {
    "Tagged with "@ + name
}

/// Whether a normalized label is in the forbidden set.
pub open spec fn forbidden_label(norm: Seq<char>) -> bool {
    ||| norm == "work in progress"@
    ||| norm == "wip"@
    ||| norm == "in progress"@
    ||| norm == "dont merge"@
    ||| norm == "do not merge"@
    ||| norm == "wait"@
    ||| norm == "not ready"@
    ||| norm == "blocked"@
}

/// Whether a label name normalizes to the override token.
pub open spec fn is_override_label(name: Seq<char>) -> bool {
    normalize_chars(name) == "prgnome ignore"@
}

/// Whether any label in the sequence is the override label.
pub open spec fn has_override(labels: Seq<Seq<char>>) -> bool {
    exists|i: int| 0 <= i < labels.len() && is_override_label(labels[i])
}

/// The reason text taken from the first override label.
pub open spec fn override_reason(labels: Seq<Seq<char>>) -> Seq<char>
    decreases labels.len(),
{
    if labels.len() == 0 {
        Seq::empty()
    } else if is_override_label(labels.first()) {
        tagged_text(labels.first())
    } else {
        override_reason(labels.drop_first())
    }
}

/// The accumulator after the commit-count check.
pub open spec fn eval_commits(total_commits: u64) -> JState {
    if total_commits > MAX_COMMITS {
        add_problem_spec(JState::Clean, "Rebase until you have 50 commits or fewer"@)
    } else {
        JState::Clean
    }
}

/// The accumulator after checking one commit message against each
/// forbidden prefix, in order.
pub open spec fn eval_message(s: JState, m: Seq<char>) -> JState {
    let norm = norm_msg(m);
    let s1 = if seq_starts_with(norm, "wip"@) {
        add_problem_spec(s, rebase_text(norm))
    } else {
        s
    };
    let s2 = if seq_starts_with(norm, "fixup!"@) {
        add_problem_spec(s1, rebase_text(norm))
    } else {
        s1
    };
    let s3 = if seq_starts_with(norm, "squash!"@) {
        add_problem_spec(s2, rebase_text(norm))
    } else {
        s2
    };
    if seq_starts_with(norm, "tmp"@) {
        add_problem_spec(s3, rebase_text(norm))
    } else {
        s3
    }
}

/// The accumulator after checking every commit message in order.
pub open spec fn eval_messages(s: JState, msgs: Seq<Seq<char>>) -> JState
    decreases msgs.len(),
{
    if msgs.len() == 0 {
        s
    } else {
        eval_messages(eval_message(s, msgs.first()), msgs.drop_first())
    }
}

/// The accumulator after checking one label and those after it: a forbidden
/// label records a violation, and the override label ends evaluation at once.
pub open spec fn eval_labels(s: JState, labels: Seq<Seq<char>>) -> JState
    decreases labels.len(),
{
    if labels.len() == 0 {
        s
    } else {
        let name = labels.first();
        let norm = normalize_chars(name);
        let s1 = if forbidden_label(norm) {
            add_problem_spec(s, remove_label_text(name))
        } else {
            s
        };
        if norm == "prgnome ignore"@ {
            JState::Forced { reason: tagged_text(name) }
        } else {
            eval_labels(s1, labels.drop_first())
        }
    }
}

/// The verdict for the given facts: commit-count check, then the commit
/// messages in order, then the labels in order.
pub open spec fn judgement_spec(
    total_commits: u64,
    msgs: Seq<Seq<char>>,
    labels: Seq<Seq<char>>,
) -> JState {
    eval_labels(eval_messages(eval_commits(total_commits), msgs), labels)
}

impl Default for Intel {
    /// Empty facts: zero commits, no messages, no labels.
    fn default() -> (r: Intel)
        ensures
            r.total_commits == 0,
            r.label_names@.len() == 0,
            r.commit_messages@.len() == 0,
    {
        Intel { label_names: Vec::new(), total_commits: 0, commit_messages: Vec::new() }
    }
}

impl Judgement {
    /// Record one violation, as `add_problem_spec` says.
    fn add_problem(&mut self, message: String)
        requires
            jcount(j_view(*old(self))) < usize::MAX,
        ensures
            j_view(*final(self)) == add_problem_spec(j_view(*old(self)), message@),
    {
        if matches!(&*self, Judgement::ForceApproved(_)) {
            return;
        }
        if matches!(&*self, Judgement::Approved) {
            *self = Judgement::NotApproved { main_problem: message, total_violations: 1 };
            return;
        }
        let updated = match &*self {
            Judgement::NotApproved { main_problem, total_violations } => Judgement::NotApproved {
                main_problem: main_problem.clone(),
                total_violations: *total_violations + 1,
            },
            _ => Judgement::Approved,
        };
        *self = updated;
    }
}

/// Truncate a message to its first 29 characters when it runs past 30.
pub fn truncate(s: &str) -> (r: &str)
    ensures
        r@ == trunc_chars(s@),
{
    let n = s.unicode_len();
    if n > 30 {
        s.substring_char(0, 29)
    } else {
        s
    }
}

/// The normal form a commit message is checked in.
fn normalize_message(m: &str) -> (r: Vec<char>)
    ensures
        r@ == norm_msg(m@),
{
    let t = truncate(m);
    let n = t.unicode_len();
    let mut out: Vec<char> = Vec::new();
    let mut i: usize = 0;
    while i < n
        invariant
            i <= n,
            n == t@.len(),
            out@.len() == i,
            forall|k: int| 0 <= k < i ==> out@[k] == lower_char(t@[k]),
        decreases n - i,
    {
        out.push(to_lower_char(t.get_char(i)));
        i = i + 1;
    }
    proof {
        assert(out@ =~= lower_chars(t@));
    }
    out
}

/// Normalizing distributes over concatenation.
proof fn lemma_normalize_chars_concat(a: Seq<char>, b: Seq<char>)
    ensures
        normalize_chars(a + b) == normalize_chars(a) + normalize_chars(b),
    decreases a.len(),
{
    if a.len() == 0 {
        assert(a + b =~= b);
        assert(normalize_chars(a) + normalize_chars(b) =~= normalize_chars(b));
    } else {
        assert((a + b).first() == a.first());
        assert((a + b).drop_first() =~= a.drop_first() + b);
        lemma_normalize_chars_concat(a.drop_first(), b);
        assert(norm_label_char(a.first()) + (normalize_chars(a.drop_first()) + normalize_chars(b))
            =~= (norm_label_char(a.first()) + normalize_chars(a.drop_first())) + normalize_chars(
            b,
        ));
    }
}

/// Normalize a label name: lowercase alphanumerics, turn the separators
/// space/hyphen/slash/colon into spaces, drop everything else.  Every
/// output is a fixpoint: normalizing is idempotent, so the canonical
/// forbidden-label table is made of already-normalized names.
pub fn normalize_label(name: &str) -> (r: String)
    ensures
        r@ == normalize_chars(name@),
        normalize_chars(r@) == r@,
{
    let n = name.unicode_len();
    let mut out: Vec<char> = Vec::new();
    let mut i: usize = 0;
    proof {
        assert(name@.skip(0) =~= name@);
        assert(normalize_chars(out@) =~= out@);
    }
    while i < n
        invariant
            i <= n,
            n == name@.len(),
            normalize_chars(name@) == out@ + normalize_chars(name@.skip(i as int)),
            normalize_chars(out@) == out@,
        decreases n - i,
    {
        let ghost pre = out@;
        let c = name.get_char(i);
        proof {
            assert(name@.skip(i as int).first() == name@[i as int]);
            assert(name@.skip(i as int).drop_first() =~= name@.skip(i as int + 1));
        }
        if char_is_alphanumeric(c) {
            out.push(to_lower_char(c));
            proof {
                crate::chars::lemma_lower_char_idempotent(c);
                let l = lower_char(c);
                assert(norm_label_char(c) =~= seq![l]);
                assert(norm_label_char(l) =~= seq![l]);
                assert(seq![l].first() == l && seq![l].drop_first() =~= Seq::<char>::empty());
                assert(normalize_chars(seq![l]) =~= norm_label_char(l) + normalize_chars(
                    Seq::<char>::empty(),
                ));
                assert(normalize_chars(norm_label_char(c)) =~= norm_label_char(c));
            }
        } else if c == ' ' || c == '-' || c == '/' || c == ':' {
            out.push(' ');
            proof {
                assert(norm_label_char(c) =~= seq![' ']);
                assert(norm_label_char(' ') =~= seq![' ']);
                assert(seq![' '].first() == ' ' && seq![' '].drop_first() =~= Seq::<char>::empty());
                assert(normalize_chars(seq![' ']) =~= norm_label_char(' ') + normalize_chars(
                    Seq::<char>::empty(),
                ));
                assert(normalize_chars(norm_label_char(c)) =~= norm_label_char(c));
            }
        } else {
            proof {
                assert(norm_label_char(c) =~= Seq::<char>::empty());
                assert(normalize_chars(norm_label_char(c)) =~= norm_label_char(c));
            }
        }
        i = i + 1;
        proof {
            assert(out@ =~= pre + norm_label_char(c));
            assert(normalize_chars(name@) =~= out@ + normalize_chars(name@.skip(i as int)));
            lemma_normalize_chars_concat(pre, norm_label_char(c));
            assert(normalize_chars(out@) =~= out@);
        }
    }
    proof {
        assert(name@.skip(n as int) =~= Seq::<char>::empty());
        assert(normalize_chars(name@) =~= out@);
    }
    chars_to_string(&out)
}

/// The message quoting a forbidden commit message.
fn rebase_problem(norm: &Vec<char>) -> (r: String)
    ensures
        r@ == rebase_text(norm@),
{
    let mut s = "Rebase away \"".to_owned();
    let norm_str = chars_to_string(norm);
    s.append(norm_str.as_str());
    s.append("\"");
    s
}

/// The message quoting a forbidden label, with the label text as it appeared.
fn remove_label_problem(name: &String) -> (r: String)
    ensures
        r@ == remove_label_text(name@),
{
    let mut s = "Remove the \"".to_owned();
    s.append(name.as_str());
    s.append("\" label");
    s
}

/// The force-approval reason, with the label text as it appeared.
fn tagged_problem(name: &String) -> (r: String)
    ensures
        r@ == tagged_text(name@),
{
    let mut s = "Tagged with ".to_owned();
    s.append(name.as_str());
    s
}

/// At most one of the commit-message rules can match one normalized message:
/// the four forbidden prefixes all start differently.
proof fn lemma_message_rules_disjoint(n: Seq<char>)
    ensures
        !(seq_starts_with(n, "wip"@) && seq_starts_with(n, "fixup!"@)),
        !(seq_starts_with(n, "wip"@) && seq_starts_with(n, "squash!"@)),
        !(seq_starts_with(n, "wip"@) && seq_starts_with(n, "tmp"@)),
        !(seq_starts_with(n, "fixup!"@) && seq_starts_with(n, "squash!"@)),
        !(seq_starts_with(n, "fixup!"@) && seq_starts_with(n, "tmp"@)),
        !(seq_starts_with(n, "squash!"@) && seq_starts_with(n, "tmp"@)),
{
    reveal_strlit("tmp");
    reveal_strlit("wip");
    reveal_strlit("fixup!");
    reveal_strlit("squash!");
    if seq_starts_with(n, "wip"@) {
        assert(n.subrange(0, 3)[0] == n[0]);
        assert(n[0] == 'w');
    }
    if seq_starts_with(n, "fixup!"@) {
        assert(n.subrange(0, 6)[0] == n[0]);
        assert(n[0] == 'f');
    }
    if seq_starts_with(n, "squash!"@) {
        assert(n.subrange(0, 7)[0] == n[0]);
        assert(n[0] == 's');
    }
    if seq_starts_with(n, "tmp"@) {
        assert(n.subrange(0, 3)[0] == n[0]);
        assert(n[0] == 't');
    }
}

impl Intel {
    /// Evaluate the policy on these facts.  The result is exactly
    /// `judgement_spec` over the commit count, the commit messages in order,
    /// and the label names in order.
    pub fn validate(&self) -> (r: Judgement)
        requires
            self.label_names@.len() + self.commit_messages@.len() + 1 < usize::MAX,
        ensures
            j_view(r) == judgement_spec(
                self.total_commits,
                self.commit_messages.deep_view(),
                self.label_names.deep_view(),
            ),
    {
        let ghost msgs = self.commit_messages.deep_view();
        let ghost labels = self.label_names.deep_view();
        let mut judgement = Judgement::Approved;
        if self.total_commits > MAX_COMMITS {
            judgement.add_problem("Rebase until you have 50 commits or fewer".to_owned());
        }
        let ghost s_commits = eval_commits(self.total_commits);
        assert(j_view(judgement) == s_commits);
        proof {
            assert(msgs.skip(0) =~= msgs);
        }
        let mut i: usize = 0;
        while i < self.commit_messages.len()
            invariant
                i <= self.commit_messages@.len(),
                msgs == self.commit_messages.deep_view(),
                labels == self.label_names.deep_view(),
                s_commits == eval_commits(self.total_commits),
                eval_messages(s_commits, msgs) == eval_messages(
                    j_view(judgement),
                    msgs.skip(i as int),
                ),
                jcount(j_view(judgement)) <= 1 + i,
                !(j_view(judgement) is Forced),
                self.label_names@.len() + self.commit_messages@.len() + 1 < usize::MAX,
            decreases self.commit_messages@.len() - i,
        {
            let ghost s0 = j_view(judgement);
            let m = &self.commit_messages[i];
            let norm = normalize_message(m.as_str());
            proof {
                assert(msgs[i as int] == m@);
                lemma_message_rules_disjoint(norm@);
            }
            if chars_start_with_str(&norm, "wip") {
                judgement.add_problem(rebase_problem(&norm));
            }
            if chars_start_with_str(&norm, "fixup!") {
                judgement.add_problem(rebase_problem(&norm));
            }
            if chars_start_with_str(&norm, "squash!") {
                judgement.add_problem(rebase_problem(&norm));
            }
            if chars_start_with_str(&norm, "tmp") {
                judgement.add_problem(rebase_problem(&norm));
            }
            proof {
                assert(j_view(judgement) == eval_message(s0, msgs[i as int]));
                assert(msgs.skip(i as int).first() == msgs[i as int]);
                assert(msgs.skip(i as int).drop_first() =~= msgs.skip(i as int + 1));
            }
            i = i + 1;
        }
        proof {
            assert(msgs.skip(i as int) =~= Seq::<Seq<char>>::empty());
        }
        let ghost s_msgs = eval_messages(s_commits, msgs);
        assert(j_view(judgement) == s_msgs);
        proof {
            assert(labels.skip(0) =~= labels);
        }
        let mut j: usize = 0;
        while j < self.label_names.len()
            invariant
                j <= self.label_names@.len(),
                labels == self.label_names.deep_view(),
                s_msgs == eval_messages(eval_commits(self.total_commits), msgs),
                msgs == self.commit_messages.deep_view(),
                eval_labels(s_msgs, labels) == eval_labels(j_view(judgement), labels.skip(j as int)),
                jcount(j_view(judgement)) <= 1 + self.commit_messages@.len() + j,
                !(j_view(judgement) is Forced),
                self.label_names@.len() + self.commit_messages@.len() + 1 < usize::MAX,
            decreases self.label_names@.len() - j,
        {
            let ghost s0 = j_view(judgement);
            let name = &self.label_names[j];
            let norm = normalize_label(name.as_str());
            proof {
                assert(labels[j as int] == name@);
                assert(labels.skip(j as int).first() == labels[j as int]);
                assert(labels.skip(j as int).drop_first() =~= labels.skip(j as int + 1));
            }
            let forbidden = str_eq(norm.as_str(), "work in progress") || str_eq(norm.as_str(), "wip")
                || str_eq(norm.as_str(), "in progress") || str_eq(norm.as_str(), "dont merge")
                || str_eq(norm.as_str(), "do not merge") || str_eq(norm.as_str(), "wait")
                || str_eq(norm.as_str(), "not ready") || str_eq(norm.as_str(), "blocked");
            if forbidden {
                judgement.add_problem(remove_label_problem(name));
            }
            if str_eq(norm.as_str(), "prgnome ignore") {
                return Judgement::ForceApproved(tagged_problem(name));
            }
            proof {
                assert(j_view(judgement) == if forbidden_label(normalize_chars(name@)) {
                    add_problem_spec(s0, remove_label_text(name@))
                } else {
                    s0
                });
            }
            j = j + 1;
        }
        proof {
            assert(labels.skip(j as int) =~= Seq::<Seq<char>>::empty());
        }
        judgement
    }
}

/// Force-approval never arises from the commit-message checks.
proof fn lemma_eval_message_not_forced(s: JState, m: Seq<char>)
    ensures
        !(s is Forced) ==> !(eval_message(s, m) is Forced),
        s is Forced ==> eval_message(s, m) == s,
{
}

proof fn lemma_eval_messages_not_forced(s: JState, msgs: Seq<Seq<char>>)
    requires
        !(s is Forced),
    ensures
        !(eval_messages(s, msgs) is Forced),
    decreases msgs.len(),
{
    if msgs.len() > 0 {
        lemma_eval_message_not_forced(s, msgs.first());
        lemma_eval_messages_not_forced(eval_message(s, msgs.first()), msgs.drop_first());
    }
}

proof fn lemma_eval_labels_override(s: JState, labels: Seq<Seq<char>>)
    requires
        has_override(labels),
        !(s is Forced),
    ensures
        eval_labels(s, labels) == (JState::Forced { reason: override_reason(labels) }),
    decreases labels.len(),
{
    let name = labels.first();
    if normalize_chars(name) == "prgnome ignore"@ {
    } else {
        let i = choose|i: int| 0 <= i < labels.len() && is_override_label(labels[i]);
        assert(i != 0);
        assert(labels.drop_first()[i - 1] == labels[i]);
        assert(has_override(labels.drop_first()));
        let s1 = if forbidden_label(normalize_chars(name)) {
            add_problem_spec(s, remove_label_text(name))
        } else {
            s
        };
        lemma_eval_labels_override(s1, labels.drop_first());
    }
}

proof fn lemma_eval_labels_no_override(s: JState, labels: Seq<Seq<char>>)
    requires
        !has_override(labels),
        !(s is Forced),
    ensures
        !(eval_labels(s, labels) is Forced),
    decreases labels.len(),
{
    if labels.len() > 0 {
        let name = labels.first();
        assert(!is_override_label(labels[0]));
        if normalize_chars(name) == "prgnome ignore"@ {
            assert(false);
        }
        assert(forall|k: int|
            0 <= k < labels.drop_first().len() ==> labels.drop_first()[k] == labels[k + 1]);
        assert(!has_override(labels.drop_first()));
        let s1 = if forbidden_label(normalize_chars(name)) {
            add_problem_spec(s, remove_label_text(name))
        } else {
            s
        };
        lemma_eval_labels_no_override(s1, labels.drop_first());
    }
}

/// Law: a pull request carrying the override label anywhere among its labels
/// is force-approved, whatever the commit count, the commit messages, or the
/// other labels, and the reported reason quotes the first override label's
/// text as it appeared.
pub proof fn lemma_override_wins(total_commits: u64, msgs: Seq<Seq<char>>, labels: Seq<Seq<char>>)
    requires
        has_override(labels),
    ensures
        judgement_spec(total_commits, msgs, labels) == (JState::Forced {
            reason: override_reason(labels),
        }),
{
    lemma_eval_messages_not_forced(eval_commits(total_commits), msgs);
    lemma_eval_labels_override(eval_messages(eval_commits(total_commits), msgs), labels);
}

/// Whether a commit message violates the message rules in its normal form:
/// it starts with one of the forbidden prefixes.
pub open spec fn msg_violates(m: Seq<char>) -> bool {
    let norm = norm_msg(m);
    ||| seq_starts_with(norm, "wip"@)
    ||| seq_starts_with(norm, "fixup!"@)
    ||| seq_starts_with(norm, "squash!"@)
    ||| seq_starts_with(norm, "tmp"@)
}

/// Whether a label violates the label rules in its normal form.
pub open spec fn label_violates(name: Seq<char>) -> bool {
    forbidden_label(normalize_chars(name))
}

/// How many commit messages violate the message rules.
pub open spec fn count_msg_violations(msgs: Seq<Seq<char>>) -> nat
    decreases msgs.len(),
{
    if msgs.len() == 0 {
        0
    } else {
        (if msg_violates(msgs.first()) {
            1nat
        } else {
            0nat
        }) + count_msg_violations(msgs.drop_first())
    }
}

/// How many labels violate the label rules.
pub open spec fn count_label_violations(labels: Seq<Seq<char>>) -> nat
    decreases labels.len(),
{
    if labels.len() == 0 {
        0
    } else {
        (if label_violates(labels.first()) {
            1nat
        } else {
            0nat
        }) + count_label_violations(labels.drop_first())
    }
}

/// The problem text of the first violating commit message.
pub open spec fn first_msg_problem(msgs: Seq<Seq<char>>) -> Seq<char>
    decreases msgs.len(),
{
    if msgs.len() == 0 {
        Seq::empty()
    } else if msg_violates(msgs.first()) {
        rebase_text(norm_msg(msgs.first()))
    } else {
        first_msg_problem(msgs.drop_first())
    }
}

/// The problem text of the first forbidden label.
pub open spec fn first_label_problem(labels: Seq<Seq<char>>) -> Seq<char>
    decreases labels.len(),
{
    if labels.len() == 0 {
        Seq::empty()
    } else if label_violates(labels.first()) {
        remove_label_text(labels.first())
    } else {
        first_label_problem(labels.drop_first())
    }
}

/// The number of independently triggered violations in the given facts.
pub open spec fn total_violations_of(
    total_commits: u64,
    msgs: Seq<Seq<char>>,
    labels: Seq<Seq<char>>,
) -> nat {
    (if total_commits > MAX_COMMITS {
        1nat
    } else {
        0nat
    }) + count_msg_violations(msgs) + count_label_violations(labels)
}

/// The problem encountered first in evaluation order: the commit-count
/// check, then the commit messages in order, then the labels in order.
pub open spec fn first_problem(
    total_commits: u64,
    msgs: Seq<Seq<char>>,
    labels: Seq<Seq<char>>,
) -> Seq<char> {
    if total_commits > MAX_COMMITS {
        "Rebase until you have 50 commits or fewer"@
    } else if count_msg_violations(msgs) > 0 {
        first_msg_problem(msgs)
    } else {
        first_label_problem(labels)
    }
}

/// Recording `n` violations onto `s`, the first of them carrying `text`.
spec fn bump(s: JState, text: Seq<char>, n: nat) -> JState {
    if n == 0 {
        s
    } else {
        match s {
            JState::Forced { .. } => s,
            JState::Clean => (JState::Accum { main: text, count: n }),
            JState::Accum { main, count } => (JState::Accum { main, count: count + n }),
        }
    }
}

/// One message records at most one violation: the rules are disjoint.
proof fn lemma_eval_message_single(s: JState, m: Seq<char>)
    ensures
        eval_message(s, m) == if msg_violates(m) {
            add_problem_spec(s, rebase_text(norm_msg(m)))
        } else {
            s
        },
{
    lemma_message_rules_disjoint(norm_msg(m));
}

proof fn lemma_eval_messages_bump(s: JState, msgs: Seq<Seq<char>>)
    ensures
        eval_messages(s, msgs) == bump(s, first_msg_problem(msgs), count_msg_violations(msgs)),
    decreases msgs.len(),
{
    if msgs.len() > 0 {
        lemma_eval_message_single(s, msgs.first());
        lemma_eval_messages_bump(eval_message(s, msgs.first()), msgs.drop_first());
    }
}

proof fn lemma_eval_labels_bump(s: JState, labels: Seq<Seq<char>>)
    requires
        !has_override(labels),
    ensures
        eval_labels(s, labels) == bump(
            s,
            first_label_problem(labels),
            count_label_violations(labels),
        ),
    decreases labels.len(),
{
    if labels.len() > 0 {
        let name = labels.first();
        assert(!is_override_label(labels[0]));
        assert(forall|k: int|
            0 <= k < labels.drop_first().len() ==> labels.drop_first()[k] == labels[k + 1]);
        assert(!has_override(labels.drop_first()));
        let s1 = if forbidden_label(normalize_chars(name)) {
            add_problem_spec(s, remove_label_text(name))
        } else {
            s
        };
        lemma_eval_labels_bump(s1, labels.drop_first());
    }
}

/// Law: without the override label, the verdict counts every violation —
/// the commit ceiling, each violating commit message, each forbidden label
/// — and carries the problem text of the first one in evaluation order; it
/// is clean exactly when there is none.
pub proof fn lemma_violations_accumulate(
    total_commits: u64,
    msgs: Seq<Seq<char>>,
    labels: Seq<Seq<char>>,
)
    requires
        !has_override(labels),
    ensures
        total_violations_of(total_commits, msgs, labels) == 0 ==> judgement_spec(
            total_commits,
            msgs,
            labels,
        ) is Clean,
        total_violations_of(total_commits, msgs, labels) > 0 ==> judgement_spec(
            total_commits,
            msgs,
            labels,
        ) == (JState::Accum {
            main: first_problem(total_commits, msgs, labels),
            count: total_violations_of(total_commits, msgs, labels),
        }),
{
    lemma_eval_messages_bump(eval_commits(total_commits), msgs);
    lemma_eval_labels_bump(eval_messages(eval_commits(total_commits), msgs), labels);
}

/// Law: without the override label the verdict is never force-approved.
pub proof fn lemma_no_override_no_force(
    total_commits: u64,
    msgs: Seq<Seq<char>>,
    labels: Seq<Seq<char>>,
)
    requires
        !has_override(labels),
    ensures
        !(judgement_spec(total_commits, msgs, labels) is Forced),
{
    lemma_eval_messages_not_forced(eval_commits(total_commits), msgs);
    lemma_eval_labels_no_override(eval_messages(eval_commits(total_commits), msgs), labels);
}

} // verus!
