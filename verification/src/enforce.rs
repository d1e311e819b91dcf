//! The enforcement executor, as a state machine over plain values.
//!
//! Every side effect (the role query, deleting the message, banning the
//! identity, posting the notice) is a network call the surrounding program
//! performs; the machine only decides, from the current state and the
//! outcome of the last call, what to do next. The machine checks privilege
//! exemption before anything destructive, tolerates a failed deletion (the
//! priority is removing the bad actor, even when the message is already
//! gone), and keeps the fixed order: delete the content, then revoke the
//! identity, then notify the chat.

use vstd::prelude::*;
use vstd::string::StrSliceExecFns;
use vstd::string::StringExecFns;

use crate::events::UserInfo;

verus! {

/// One enforcement request: the chat and message an offending event came
/// from, and the identity to act against.
#[derive(Debug)]
pub struct EnforcementJob {
    pub chat_id: i64,
    pub message_id: i32,
    pub user: UserInfo,
}

impl EnforcementJob {
    /// An equal copy.
    pub fn duplicate(&self) -> (r: EnforcementJob)
        ensures
            r == *self,
    {
        EnforcementJob {
            chat_id: self.chat_id,
            message_id: self.message_id,
            user: self.user.duplicate(),
        }
    }
}

/// An identity's live role in a chat, as the transport reports it.
#[derive(Clone, Copy, PartialEq, Eq, Structural, Debug)]
pub enum Role {
    Member,
    Administrator,
    Owner,
}

/// Owners and administrators are exempt from enforcement.
pub open spec fn exempt_role(r: Role) -> bool {
    r is Administrator || r is Owner
}

/// What the surrounding program reports back to the machine: the role the
/// exemption query returned, that the query failed, or that the requested
/// step succeeded or failed.
#[derive(Clone, Copy, PartialEq, Eq, Structural, Debug)]
pub enum EnforceEvent {
    RoleIs(Role),
    RoleQueryFailed,
    StepOk,
    StepFailed,
}

/// What the machine asks the surrounding program to do next. `Finished`
/// asks for nothing: the run is over.
#[derive(Clone, Copy, PartialEq, Eq, Structural, Debug)]
pub enum EnforceAction {
    QueryRole,
    DeleteMessage,
    BanUser,
    SendNotice,
    Finished,
}

/// The machine's state: which step is in flight, or how the run ended.
#[derive(Clone, Copy, PartialEq, Eq, Structural, Debug)]
pub enum EnforceState {
    CheckingExemption,
    Deleting,
    Banning,
    Notifying,
    DoneExempt,
    DoneEnforced,
    Failed,
}

/// A state in which the run is over.
pub open spec fn is_terminal(s: EnforceState) -> bool {
    s is DoneExempt || s is DoneEnforced || s is Failed
}

/// The transition function: from a state and the last outcome, the next
/// state and the next request. An event a state does not expect aborts the
/// run. A failed deletion does not block the ban; a failed ban does block
/// the notification, which must only announce a ban that happened.
pub open spec fn step_spec(s: EnforceState, ev: EnforceEvent) -> (EnforceState, EnforceAction) {
    match s {
        EnforceState::CheckingExemption => match ev {
            EnforceEvent::RoleIs(role) => if exempt_role(role) {
                (EnforceState::DoneExempt, EnforceAction::Finished)
            } else {
                (EnforceState::Deleting, EnforceAction::DeleteMessage)
            },
            _ => (EnforceState::Failed, EnforceAction::Finished),
        },
        EnforceState::Deleting => match ev {
            EnforceEvent::StepOk => (EnforceState::Banning, EnforceAction::BanUser),
            EnforceEvent::StepFailed => (EnforceState::Banning, EnforceAction::BanUser),
            _ => (EnforceState::Failed, EnforceAction::Finished),
        },
        EnforceState::Banning => match ev {
            EnforceEvent::StepOk => (EnforceState::Notifying, EnforceAction::SendNotice),
            _ => (EnforceState::Failed, EnforceAction::Finished),
        },
        EnforceState::Notifying => match ev {
            EnforceEvent::StepOk => (EnforceState::DoneEnforced, EnforceAction::Finished),
            _ => (EnforceState::Failed, EnforceAction::Finished),
        },
        EnforceState::DoneExempt => (EnforceState::DoneExempt, EnforceAction::Finished),
        EnforceState::DoneEnforced => (EnforceState::DoneEnforced, EnforceAction::Finished),
        EnforceState::Failed => (EnforceState::Failed, EnforceAction::Finished),
    }
}

/// One enforcement run in progress.
#[derive(Debug)]
pub struct Enforcement {
    pub state: EnforceState,
    /// Whether the deletion step failed; the run continues, but the
    /// overall outcome must be reported as a failure.
    pub delete_failed: bool,
    pub job: EnforcementJob,
}

impl Enforcement {
    /// Begins a run: the first request is always the exemption query, so
    /// no destructive action can precede it.
    pub fn start(job: EnforcementJob) -> (r: (Enforcement, EnforceAction))
        ensures
            r.0.state is CheckingExemption,
            !r.0.delete_failed,
            r.0.job == job,
            r.1 is QueryRole,
    {
        (
            Enforcement { state: EnforceState::CheckingExemption, delete_failed: false, job },
            EnforceAction::QueryRole,
        )
    }

    /// Feeds the outcome of the last request into the machine and returns
    /// the next request, as [`step_spec`] describes.
    pub fn on_event(&mut self, ev: EnforceEvent) -> (a: EnforceAction)
        ensures
            (final(self).state, a) == step_spec(old(self).state, ev),
            final(self).job == old(self).job,
            final(self).delete_failed == (old(self).delete_failed || (old(self).state is Deleting
                && ev is StepFailed)),
    {
        if matches!(self.state, EnforceState::Deleting) && matches!(ev, EnforceEvent::StepFailed) {
            self.delete_failed = true;
        }
        let next: (EnforceState, EnforceAction) = match self.state {
            EnforceState::CheckingExemption => match ev {
                EnforceEvent::RoleIs(role) => match role {
                    Role::Administrator => (EnforceState::DoneExempt, EnforceAction::Finished),
                    Role::Owner => (EnforceState::DoneExempt, EnforceAction::Finished),
                    Role::Member => (EnforceState::Deleting, EnforceAction::DeleteMessage),
                },
                _ => (EnforceState::Failed, EnforceAction::Finished),
            },
            EnforceState::Deleting => match ev {
                EnforceEvent::StepOk => (EnforceState::Banning, EnforceAction::BanUser),
                EnforceEvent::StepFailed => (EnforceState::Banning, EnforceAction::BanUser),
                _ => (EnforceState::Failed, EnforceAction::Finished),
            },
            EnforceState::Banning => match ev {
                EnforceEvent::StepOk => (EnforceState::Notifying, EnforceAction::SendNotice),
                _ => (EnforceState::Failed, EnforceAction::Finished),
            },
            EnforceState::Notifying => match ev {
                EnforceEvent::StepOk => (EnforceState::DoneEnforced, EnforceAction::Finished),
                _ => (EnforceState::Failed, EnforceAction::Finished),
            },
            EnforceState::DoneExempt => (EnforceState::DoneExempt, EnforceAction::Finished),
            EnforceState::DoneEnforced => (EnforceState::DoneEnforced, EnforceAction::Finished),
            EnforceState::Failed => (EnforceState::Failed, EnforceAction::Finished),
        };
        self.state = next.0;
        next.1
    }

    /// The public notice announcing the ban, ready for the transport's
    /// markup mode.
    pub fn notice_text(&self) -> (r: String)
        ensures
            r@ == ban_notice_spec(self.job.user.full_name@, self.job.user.id as nat),
    {
        ban_notice(&self.job.user)
    }
}

/// The requests a run emits from state `s` on the outcomes `evs`, in
/// order. A full run's requests are `QueryRole` (from [`Enforcement::start`])
/// followed by `run_actions(CheckingExemption, evs)`.
pub open spec fn run_actions(s: EnforceState, evs: Seq<EnforceEvent>) -> Seq<EnforceAction>
    decreases evs.len(),
{
    if evs.len() == 0 {
        Seq::empty()
    } else {
        let r = step_spec(s, evs[0]);
        seq![r.1] + run_actions(r.0, evs.drop_first())
    }
}

/// A destructive request: one that deletes content, bans an identity or
/// posts a notice.
pub open spec fn destructive(a: EnforceAction) -> bool {
    a is DeleteMessage || a is BanUser || a is SendNotice
}

/// The fixed position of a destructive request in the enforcement order.
pub open spec fn action_rank(a: EnforceAction) -> int {
    if a is DeleteMessage {
        1
    } else if a is BanUser {
        2
    } else if a is SendNotice {
        3
    } else {
        0
    }
}

/// The lowest rank a destructive request emitted from state `s` can have.
pub open spec fn state_threshold(s: EnforceState) -> int {
    match s {
        EnforceState::CheckingExemption => 1,
        EnforceState::Deleting => 2,
        EnforceState::Banning => 3,
        _ => 4,
    }
}

proof fn lemma_run_ranked(s: EnforceState, evs: Seq<EnforceEvent>)
    ensures
        forall|i: int|
            0 <= i < run_actions(s, evs).len() && destructive(#[trigger] run_actions(s, evs)[i])
                ==> action_rank(run_actions(s, evs)[i]) >= state_threshold(s),
        forall|i: int, j: int|
            #![trigger run_actions(s, evs)[i], run_actions(s, evs)[j]]
            0 <= i < j < run_actions(s, evs).len() && destructive(run_actions(s, evs)[i])
                && destructive(run_actions(s, evs)[j]) ==> action_rank(run_actions(s, evs)[i])
                < action_rank(run_actions(s, evs)[j]),
    decreases evs.len(),
{
    if evs.len() > 0 {
        let r = step_spec(s, evs[0]);
        lemma_run_ranked(r.0, evs.drop_first());
        let acts = run_actions(s, evs);
        let rest = run_actions(r.0, evs.drop_first());
        assert(acts == seq![r.1] + rest);
        assert(acts[0] == r.1);
        assert(forall|i: int| 1 <= i < acts.len() ==> acts[i] == #[trigger] rest[i - 1]);
        assert(destructive(r.1) ==> action_rank(r.1) >= state_threshold(s));
        assert(destructive(r.1) ==> state_threshold(r.0) > action_rank(r.1));
        assert(state_threshold(r.0) >= state_threshold(s));
    }
}

/// Exemption always precedes destruction: a run that is never told the
/// identity is an ordinary member — in particular one whose exemption
/// query reported an owner or administrator — emits no delete, ban or
/// notification request.
pub proof fn lemma_exemption_blocks_enforcement(evs: Seq<EnforceEvent>)
    requires
        forall|k: int|
            0 <= k < evs.len() ==> !(#[trigger] evs[k] matches EnforceEvent::RoleIs(Role::Member)),
    ensures
        forall|i: int|
            0 <= i < run_actions(EnforceState::CheckingExemption, evs).len() ==> !destructive(
                #[trigger] run_actions(EnforceState::CheckingExemption, evs)[i],
            ),
{
    lemma_no_member_no_destruction(EnforceState::CheckingExemption, evs);
}

proof fn lemma_no_member_no_destruction(s: EnforceState, evs: Seq<EnforceEvent>)
    requires
        s is CheckingExemption || is_terminal(s),
        forall|k: int|
            0 <= k < evs.len() ==> !(#[trigger] evs[k] matches EnforceEvent::RoleIs(Role::Member)),
    ensures
        forall|i: int|
            0 <= i < run_actions(s, evs).len() ==> !destructive(#[trigger] run_actions(s, evs)[i]),
    decreases evs.len(),
{
    if evs.len() > 0 {
        let r = step_spec(s, evs[0]);
        assert(evs.drop_first().len() == evs.len() - 1);
        assert(forall|k: int|
            0 <= k < evs.drop_first().len() ==> evs.drop_first()[k] == #[trigger] evs[k + 1]);
        lemma_no_member_no_destruction(r.0, evs.drop_first());
        let acts = run_actions(s, evs);
        let rest = run_actions(r.0, evs.drop_first());
        assert(acts == seq![r.1] + rest);
        assert(acts[0] == r.1);
        assert(forall|i: int| 1 <= i < acts.len() ==> acts[i] == #[trigger] rest[i - 1]);
        assert(!destructive(r.1));
    }
}

/// Step ordering: in any run, the destructive requests come out in the
/// fixed order — the deletion strictly before the ban, the ban strictly
/// before the notice — and none of the three is ever emitted twice.
pub proof fn lemma_enforcement_ordered(evs: Seq<EnforceEvent>)
    ensures
        forall|i: int, j: int|
            #![trigger run_actions(EnforceState::CheckingExemption, evs)[i], run_actions(EnforceState::CheckingExemption, evs)[j]]
            0 <= i < j < run_actions(EnforceState::CheckingExemption, evs).len() && destructive(
                run_actions(EnforceState::CheckingExemption, evs)[i],
            ) && destructive(run_actions(EnforceState::CheckingExemption, evs)[j]) ==> action_rank(
                run_actions(EnforceState::CheckingExemption, evs)[i],
            ) < action_rank(run_actions(EnforceState::CheckingExemption, evs)[j]),
{
    lemma_run_ranked(EnforceState::CheckingExemption, evs);
}

/// The words a digit is written with.
pub open spec fn spec_digit(d: int) -> char {
    if d == 0 {
        '0'
    } else if d == 1 {
        '1'
    } else if d == 2 {
        '2'
    } else if d == 3 {
        '3'
    } else if d == 4 {
        '4'
    } else if d == 5 {
        '5'
    } else if d == 6 {
        '6'
    } else if d == 7 {
        '7'
    } else if d == 8 {
        '8'
    } else {
        '9'
    }
}

/// The decimal digits of a number, most significant first.
pub open spec fn spec_digits(n: nat) -> Seq<char>
    decreases n,
{
    if n < 10 {
        seq![spec_digit(n as int)]
    } else {
        spec_digits(n / 10).push(spec_digit((n % 10) as int))
    }
}

fn digit_str(d: u64) -> (r: &'static str)
    requires
        d < 10,
    ensures
        r@ == seq![spec_digit(d as int)],
{
    if d == 0 {
        proof {
            reveal_strlit("0");
            assert("0"@ =~= seq![spec_digit(0)]);
        }
        "0"
    } else if d == 1 {
        proof {
            reveal_strlit("1");
            assert("1"@ =~= seq![spec_digit(1)]);
        }
        "1"
    } else if d == 2 {
        proof {
            reveal_strlit("2");
            assert("2"@ =~= seq![spec_digit(2)]);
        }
        "2"
    } else if d == 3 {
        proof {
            reveal_strlit("3");
            assert("3"@ =~= seq![spec_digit(3)]);
        }
        "3"
    } else if d == 4 {
        proof {
            reveal_strlit("4");
            assert("4"@ =~= seq![spec_digit(4)]);
        }
        "4"
    } else if d == 5 {
        proof {
            reveal_strlit("5");
            assert("5"@ =~= seq![spec_digit(5)]);
        }
        "5"
    } else if d == 6 {
        proof {
            reveal_strlit("6");
            assert("6"@ =~= seq![spec_digit(6)]);
        }
        "6"
    } else if d == 7 {
        proof {
            reveal_strlit("7");
            assert("7"@ =~= seq![spec_digit(7)]);
        }
        "7"
    } else if d == 8 {
        proof {
            reveal_strlit("8");
            assert("8"@ =~= seq![spec_digit(8)]);
        }
        "8"
    } else {
        proof {
            reveal_strlit("9");
            assert("9"@ =~= seq![spec_digit(9)]);
        }
        "9"
    }
}

/// Writes a number in decimal.
pub fn format_u64(n: u64) -> (r: String)
    ensures
        r@ == spec_digits(n as nat),
    decreases n,
{
    if n < 10 {
        String::from_str(digit_str(n))
    } else {
        let mut s = format_u64(n / 10);
        s.append(digit_str(n % 10));
        proof {
            assert(s@ =~= spec_digits((n / 10) as nat).push(spec_digit((n % 10) as int)));
        }
        s
    }
}

/// A character the transport's markup mode gives meaning to; it must be
/// escaped in the notice so an identity's name cannot break the markup.
pub open spec fn needs_escape(c: char) -> bool {
    c == '_' || c == '*' || c == '[' || c == ']' || c == '(' || c == ')' || c == '~' || c == '`'
        || c == '>' || c == '#' || c == '+' || c == '-' || c == '=' || c == '|' || c == '{' || c
        == '}' || c == '.' || c == '!' || c == '\\'
}

/// A text with every markup character preceded by a backslash.
pub open spec fn escape_spec(s: Seq<char>) -> Seq<char>
    decreases s.len(),
{
    if s.len() == 0 {
        Seq::empty()
    } else {
        escape_spec(s.drop_last()) + (if needs_escape(s.last()) {
            seq!['\\', s.last()]
        } else {
            seq![s.last()]
        })
    }
}

fn char_needs_escape(c: char) -> (r: bool)
    ensures
        r == needs_escape(c),
{
    c == '_' || c == '*' || c == '[' || c == ']' || c == '(' || c == ')' || c == '~' || c == '`'
        || c == '>' || c == '#' || c == '+' || c == '-' || c == '=' || c == '|' || c == '{' || c
        == '}' || c == '.' || c == '!' || c == '\\'
}

/// Escapes every markup character of a text with a backslash.
pub fn escape_markdown(s: &str) -> (r: String)
    ensures
        r@ == escape_spec(s@),
{
    let n = s.unicode_len();
    let mut out = String::new();
    let mut i: usize = 0;
    while i < n
        invariant
            n == s@.len(),
            i <= n,
            out@ == escape_spec(s@.subrange(0, i as int)),
        decreases n - i,
    {
        let c = s.get_char(i);
        if char_needs_escape(c) {
            out.append("\\");
        }
        out.append(s.substring_char(i, i + 1));
        proof {
            let pre = s@.subrange(0, i as int);
            let post = s@.subrange(0, i as int + 1);
            assert(post.drop_last() =~= pre);
            assert(post.last() == s@[i as int]);
            reveal_strlit("\\");
            assert(out@ =~= escape_spec(post));
        }
        i = i + 1;
    }
    proof {
        assert(s@.subrange(0, n as int) =~= s@);
    }
    out
}

/// The notice text: names the removed identity, escaped for the markup
/// mode, with a mention link carrying its numeric id.
pub open spec fn ban_notice_spec(name: Seq<char>, id: nat) -> Seq<char> {
    "User ["@ + escape_spec(name) + " \\("@ + spec_digits(id) + "\\)](tg://user?id\\="@
        + spec_digits(id) + ") has been banned\\."@
}

/// Builds the public ban notice for an identity.
pub fn ban_notice(user: &UserInfo) -> (r: String)
    ensures
        r@ == ban_notice_spec(user.full_name@, user.id as nat),
{
    let escaped = escape_markdown(user.full_name.as_str());
    let digits = format_u64(user.id);
    let mut r = String::from_str("User [");
    r.append(escaped.as_str());
    r.append(" \\(");
    r.append(digits.as_str());
    r.append("\\)](tg://user?id\\=");
    r.append(digits.as_str());
    r.append(") has been banned\\.");
    proof {
        assert(r@ =~= ban_notice_spec(user.full_name@, user.id as nat));
    }
    r
}

} // verus!
