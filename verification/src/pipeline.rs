//! The evaluation pipeline: extracts every text surface of an incoming
//! event and evaluates each against the relevant rule group, in a fixed
//! precedence, producing at most one verdict per surface category.
//!
//! Joining members' display names and the sender's, forwarder's and
//! forwarded chat's names are tested against the identity rules; the
//! message body (else the caption) and every displayed-text-over-URL
//! entity are tested against the content rules. Each surface is tested
//! directly first; only when no rule matches the raw text is the
//! normalized text tested, so normalization can never hide which literal
//! text a rule matched.

use vstd::prelude::*;
use vstd::string::StringExecFns;

use crate::config::Config;
use crate::enforce::EnforcementJob;
use crate::events::content_text;
use crate::events::content_text_of;
use crate::events::event_of;
use crate::events::CommonMessage;
use crate::events::MediaBody;
use crate::events::MessageDetail;
use crate::events::UpdateEvent;
use crate::events::UserInfo;
use crate::matching::all_patterns_run;
use crate::matching::is_match;
use crate::matching::is_match_obfuscated;
use crate::matching::matches_none_before;
use crate::matching::no_rule_matches;
use crate::matching::pattern_matches;
use crate::matching::MatchError;
use crate::matching::Rule;
use crate::normalize::normalize_spec;

verus! {

/// Which text surface a verdict is about.
#[derive(Clone, Copy, PartialEq, Eq, Structural, Debug)]
pub enum SurfaceKind {
    MemberName,
    SenderName,
    ForwarderName,
    ForwardedChatTitle,
    MessageText,
    LinkTarget { index: usize },
}

/// The rule a surface matched: its position in the group, its pattern
/// text, and whether the match needed the normalized text.
#[derive(Debug)]
pub struct SurfaceMatch {
    pub rule_index: usize,
    pub rule_pattern: String,
    pub normalized: bool,
}

/// A correct match result for a text against a rule group: the first rule
/// in declaration order that matches the raw text or, failing that — and
/// only then — the first rule that matches the normalized text.
pub open spec fn surface_match_ok(rules: Seq<Rule>, t: Seq<char>, m: SurfaceMatch) -> bool {
    &&& m.rule_index < rules.len()
    &&& m.rule_pattern@ == rules[m.rule_index as int]@
    &&& if m.normalized {
        &&& no_rule_matches(rules, t)
        &&& pattern_matches(m.rule_pattern@, normalize_spec(t))
        &&& matches_none_before(rules, normalize_spec(t), m.rule_index as int)
    } else {
        &&& pattern_matches(m.rule_pattern@, t)
        &&& matches_none_before(rules, t, m.rule_index as int)
    }
}

/// Some rule of the group matches the text, raw or normalized.
pub open spec fn surface_fires(rules: Seq<Rule>, t: Seq<char>) -> bool {
    !(no_rule_matches(rules, t) && no_rule_matches(rules, normalize_spec(t)))
}

/// The engine completes on every rule of the group against the raw and
/// the normalized text: evaluating the surface then owes a result.
pub open spec fn surface_runs(rules: Seq<Rule>, t: Seq<char>) -> bool {
    all_patterns_run(rules, t) && all_patterns_run(rules, normalize_spec(t))
}

/// The normalized retry is a fallback only: a match marked as normalized
/// can exist only when no rule matched the raw text, so normalization
/// never hides a direct match.
pub proof fn lemma_fallback_only(rules: Seq<Rule>, t: Seq<char>, m: SurfaceMatch)
    requires
        surface_match_ok(rules, t, m),
        m.normalized,
    ensures
        no_rule_matches(rules, t),
{
}

/// Evaluates one text surface: a direct match first and, only when no
/// rule matches directly, a normalized retry.
pub fn evaluate_surface(text: &str, rules: &Vec<Rule>) -> (r: Result<
    Option<SurfaceMatch>,
    MatchError,
>)
    ensures
        surface_runs(rules@, text@) ==> r is Ok,
        r matches Ok(Some(m)) ==> surface_match_ok(rules@, text@, m),
        r matches Ok(None) ==> !surface_fires(rules@, text@),
{
    match is_match(text, rules) {
        Ok(Some(m)) => Ok(
            Some(SurfaceMatch { rule_index: m.index, rule_pattern: m.pattern, normalized: false }),
        ),
        Ok(None) => match is_match_obfuscated(text, rules) {
            Ok(Some(m)) => Ok(
                Some(
                    SurfaceMatch { rule_index: m.index, rule_pattern: m.pattern, normalized: true },
                ),
            ),
            Ok(None) => Ok(None),
            Err(e) => Err(e),
        },
        Err(e) => Err(e),
    }
}

/// A verdict holds a surface, the text that stood on it, the rule that fired,
/// and the identity enforcement targets. For forwarded content the checked
/// name is the forwarding source's, but the target is always the local
/// sender — the account actually present in the group.
#[derive(Debug)]
pub struct Verdict {
    pub surface: SurfaceKind,
    pub text: String,
    pub found: SurfaceMatch,
    pub target: UserInfo,
}

/// The verdict's text is the given surface text and its match is correct
/// for that text.
pub open spec fn verdict_ok(rules: Seq<Rule>, t: Seq<char>, v: Verdict) -> bool {
    v.text@ == t && surface_match_ok(rules, t, v.found)
}

/// A correct optional verdict for one surface: a verdict exactly when some
/// rule fires on the surface's text.
pub open spec fn opt_verdict_ok(
    rules: Seq<Rule>,
    t: Seq<char>,
    surface: SurfaceKind,
    target: UserInfo,
    ov: Option<Verdict>,
) -> bool {
    match ov {
        Some(v) => v.surface == surface && v.target == target && verdict_ok(rules, t, v),
        None => !surface_fires(rules, t),
    }
}

/// A correct entry for one joining member: a verdict on the member's
/// display name, targeting that member.
pub open spec fn member_entry_ok(rules: Seq<Rule>, member: UserInfo, ov: Option<Verdict>) -> bool {
    opt_verdict_ok(rules, member.full_name@, SurfaceKind::MemberName, member, ov)
}

/// Correct entries for all joining members, one per member, in order.
pub open spec fn member_verdicts_ok(
    rules: Seq<Rule>,
    members: Seq<UserInfo>,
    vs: Seq<Option<Verdict>>,
) -> bool {
    &&& vs.len() == members.len()
    &&& forall|i: int| 0 <= i < members.len() ==> member_entry_ok(rules, members[i], #[trigger] vs[i])
}

/// The engine completes on every joining member's display name.
pub open spec fn members_run(rules: Seq<Rule>, members: Seq<UserInfo>) -> bool {
    forall|i: int| 0 <= i < members.len() ==> surface_runs(rules, (#[trigger] members[i]).full_name@)
}

/// The engine completes on every embedded link target.
pub open spec fn links_run(rules: Seq<Rule>, links: Seq<String>) -> bool {
    forall|k: int| 0 <= k < links.len() ==> surface_runs(rules, (#[trigger] links[k])@)
}

/// A correct content verdict — at most one for the whole event, from the
/// first content surface that fires — the body-or-caption text first, then
/// the embedded link targets in entity order.
pub open spec fn content_verdict_ok(
    rules: Seq<Rule>,
    t: Seq<char>,
    links: Seq<String>,
    target: UserInfo,
    ov: Option<Verdict>,
) -> bool {
    match ov {
        None => !surface_fires(rules, t) && (forall|k: int|
            0 <= k < links.len() ==> !surface_fires(rules, #[trigger] links[k]@)),
        Some(v) => v.target == target && match v.surface {
            SurfaceKind::MessageText => verdict_ok(rules, t, v),
            SurfaceKind::LinkTarget { index } => {
                &&& !surface_fires(rules, t)
                &&& index < links.len()
                &&& verdict_ok(rules, links[index as int]@, v)
                &&& forall|j: int|
                    0 <= j < index ==> !surface_fires(rules, #[trigger] links[j]@)
            },
            _ => false,
        },
    }
}

/// Everything one evaluation decided: the per-surface verdicts, whether
/// and with what text the external classifier should be consulted, whether
/// the diagnostic command was recognized, and whether the media kind had
/// no extractable text.
#[derive(Debug)]
pub struct Evaluation {
    pub member_verdicts: Vec<Option<Verdict>>,
    pub content_verdict: Option<Verdict>,
    pub sender_name_verdict: Option<Verdict>,
    pub forwarder_name_verdict: Option<Verdict>,
    pub forwarded_chat_verdict: Option<Verdict>,
    pub classifier_text: Option<String>,
    pub ping: bool,
    pub unsupported_media: bool,
}

/// An evaluation that decided nothing.
pub open spec fn is_empty_eval(ev: Evaluation) -> bool {
    &&& ev.member_verdicts@.len() == 0
    &&& ev.content_verdict is None
    &&& ev.sender_name_verdict is None
    &&& ev.forwarder_name_verdict is None
    &&& ev.forwarded_chat_verdict is None
    &&& ev.classifier_text is None
    &&& !ev.ping
    &&& !ev.unsupported_media
}

/// The full contract of one evaluation run over an update.
pub open spec fn eval_ok(u: UpdateEvent, cfg: Config, ev: Evaluation) -> bool {
    match event_of(u) {
        None => is_empty_eval(ev),
        Some(msg) => {
            &&& match msg.detail {
                MessageDetail::NewChatMembers(members) => {
                    &&& member_verdicts_ok(cfg.name_regexes@, members@, ev.member_verdicts@)
                    &&& ev.content_verdict is None
                    &&& ev.classifier_text is None
                    &&& !ev.ping
                    &&& !ev.unsupported_media
                    &&& ev.forwarder_name_verdict is None
                    &&& ev.forwarded_chat_verdict is None
                },
                MessageDetail::Common(c) => {
                    &&& ev.member_verdicts@.len() == 0
                    &&& match msg.sender {
                        None => {
                            &&& ev.content_verdict is None
                            &&& ev.classifier_text is None
                            &&& !ev.ping
                            &&& !ev.unsupported_media
                            &&& ev.forwarder_name_verdict is None
                            &&& ev.forwarded_chat_verdict is None
                        },
                        Some(user) => {
                            &&& match content_text_of(c) {
                                None => {
                                    &&& ev.content_verdict is None
                                    &&& ev.classifier_text is None
                                    &&& !ev.ping
                                    &&& ev.unsupported_media == (c.media is Other)
                                },
                                Some(t) => {
                                    &&& content_verdict_ok(
                                        cfg.message_regexes@,
                                        t,
                                        c.link_targets@,
                                        user,
                                        ev.content_verdict,
                                    )
                                    &&& ev.ping == (t == "/aufseher ping"@)
                                    &&& !ev.unsupported_media
                                    &&& (ev.classifier_text matches Some(q) ==> q@ == t)
                                    &&& (ev.classifier_text is Some <==> cfg.openai_api_key is Some
                                        && ev.content_verdict is None)
                                },
                            }
                            &&& match c.forward_from_user {
                                Some(fu) => opt_verdict_ok(
                                    cfg.name_regexes@,
                                    fu.full_name@,
                                    SurfaceKind::ForwarderName,
                                    user,
                                    ev.forwarder_name_verdict,
                                ),
                                None => ev.forwarder_name_verdict is None,
                            }
                            &&& match c.forward_from_chat_title {
                                Some(title) => opt_verdict_ok(
                                    cfg.name_regexes@,
                                    title@,
                                    SurfaceKind::ForwardedChatTitle,
                                    user,
                                    ev.forwarded_chat_verdict,
                                ),
                                None => ev.forwarded_chat_verdict is None,
                            }
                        },
                    }
                },
            }
            &&& match msg.sender {
                Some(user) => opt_verdict_ok(
                    cfg.name_regexes@,
                    user.full_name@,
                    SurfaceKind::SenderName,
                    user,
                    ev.sender_name_verdict,
                ),
                None => ev.sender_name_verdict is None,
            }
        },
    }
}

/// The engine completes on every surface the evaluation consults for this
/// update: on such an update, evaluation is owed a result, never an error.
/// An ignored update consults no surface, so evaluating it always
/// succeeds.
pub open spec fn update_runs(u: UpdateEvent, cfg: Config) -> bool {
    match event_of(u) {
        None => true,
        Some(msg) => {
            &&& match msg.detail {
                MessageDetail::NewChatMembers(members) => members_run(
                    cfg.name_regexes@,
                    members@,
                ),
                MessageDetail::Common(c) => match msg.sender {
                    None => true,
                    Some(user) => {
                        &&& match content_text_of(c) {
                            Some(t) => surface_runs(cfg.message_regexes@, t) && links_run(
                                cfg.message_regexes@,
                                c.link_targets@,
                            ),
                            None => true,
                        }
                        &&& match c.forward_from_user {
                            Some(fu) => surface_runs(cfg.name_regexes@, fu.full_name@),
                            None => true,
                        }
                        &&& match c.forward_from_chat_title {
                            Some(title) => surface_runs(cfg.name_regexes@, title@),
                            None => true,
                        }
                    },
                },
            }
            &&& match msg.sender {
                Some(user) => surface_runs(cfg.name_regexes@, user.full_name@),
                None => true,
            }
        },
    }
}

fn fresh_evaluation() -> (ev: Evaluation)
    ensures
        is_empty_eval(ev),
{
    Evaluation {
        member_verdicts: Vec::new(),
        content_verdict: None,
        sender_name_verdict: None,
        forwarder_name_verdict: None,
        forwarded_chat_verdict: None,
        classifier_text: None,
        ping: false,
        unsupported_media: false,
    }
}

/// Evaluates one surface and wraps a firing rule into a verdict.
fn evaluate_named_surface(
    text: &str,
    rules: &Vec<Rule>,
    surface: SurfaceKind,
    target: &UserInfo,
) -> (r: Result<Option<Verdict>, MatchError>)
    ensures
        surface_runs(rules@, text@) ==> r is Ok,
        r matches Ok(ov) ==> opt_verdict_ok(rules@, text@, surface, *target, ov),
{
    match evaluate_surface(text, rules) {
        Ok(Some(found)) => Ok(
            Some(
                Verdict { surface, text: text.to_owned(), found, target: target.duplicate() },
            ),
        ),
        Ok(None) => Ok(None),
        Err(e) => Err(e),
    }
}

/// Evaluates every joining member's display name against the identity
/// rules, in order.
fn evaluate_members(members: &Vec<UserInfo>, rules: &Vec<Rule>) -> (r: Result<
    Vec<Option<Verdict>>,
    MatchError,
>)
    ensures
        members_run(rules@, members@) ==> r is Ok,
        r matches Ok(vs) ==> member_verdicts_ok(rules@, members@, vs@),
{
    let n = members.len();
    let mut vs: Vec<Option<Verdict>> = Vec::new();
    let mut i: usize = 0;
    while i < n
        invariant
            n == members.len(),
            i <= n,
            vs@.len() == i,
            forall|j: int| 0 <= j < i ==> member_entry_ok(rules@, members@[j], #[trigger] vs@[j]),
        decreases n - i,
    {
        let member = &members[i];
        match evaluate_named_surface(
            member.full_name.as_str(),
            rules,
            SurfaceKind::MemberName,
            member,
        ) {
            Ok(ov) => {
                vs.push(ov);
            },
            Err(e) => {
                return Err(e);
            },
        }
        i = i + 1;
    }
    Ok(vs)
}

/// Evaluates the embedded link targets in entity order and returns a
/// verdict for the first that fires.
fn evaluate_links(links: &Vec<String>, rules: &Vec<Rule>, target: &UserInfo) -> (r: Result<
    Option<Verdict>,
    MatchError,
>)
    ensures
        links_run(rules@, links@) ==> r is Ok,
        r matches Ok(Some(v)) ==> v.target == *target && match v.surface {
            SurfaceKind::LinkTarget { index } => {
                &&& index < links.len()
                &&& verdict_ok(rules@, links@[index as int]@, v)
                &&& forall|j: int|
                    0 <= j < index ==> !surface_fires(rules@, #[trigger] links@[j]@)
            },
            _ => false,
        },
        r matches Ok(None) ==> forall|k: int|
            0 <= k < links@.len() ==> !surface_fires(rules@, #[trigger] links@[k]@),
{
    let n = links.len();
    let mut k: usize = 0;
    while k < n
        invariant
            n == links.len(),
            k <= n,
            forall|j: int| 0 <= j < k ==> !surface_fires(rules@, #[trigger] links@[j]@),
        decreases n - k,
    {
        let url = &links[k];
        match evaluate_surface(url.as_str(), rules) {
            Ok(Some(found)) => {
                return Ok(
                    Some(
                        Verdict {
                            surface: SurfaceKind::LinkTarget { index: k },
                            text: url.clone(),
                            found,
                            target: target.duplicate(),
                        },
                    ),
                );
            },
            Ok(None) => {},
            Err(e) => {
                return Err(e);
            },
        }
        k = k + 1;
    }
    Ok(None)
}

/// Evaluates one incoming update against the configuration: every text
/// surface of the event, in the fixed precedence [`eval_ok`] describes.
/// Fails only when the pattern engine fails on some surface; that event's
/// handling is then abandoned by the caller.
pub fn evaluate_update(update: &UpdateEvent, config: &Config) -> (r: Result<
    Evaluation,
    MatchError,
>)
    ensures
        update_runs(*update, *config) ==> r is Ok,
        r matches Ok(ev) ==> eval_ok(*update, *config, ev),
{
    let msg = match update {
        UpdateEvent::Message(m) => m,
        UpdateEvent::EditedMessage(m) => m,
        UpdateEvent::Other => {
            return Ok(fresh_evaluation());
        },
    };
    let mut ev = fresh_evaluation();
    match &msg.detail {
        MessageDetail::NewChatMembers(members) => {
            match evaluate_members(members, &config.name_regexes) {
                Ok(vs) => {
                    ev.member_verdicts = vs;
                },
                Err(e) => {
                    return Err(e);
                },
            }
        },
        MessageDetail::Common(c) => {
            if let Some(user) = &msg.sender {
                match content_text(c) {
                    Some(t) => {
                        match evaluate_named_surface(
                            t.as_str(),
                            &config.message_regexes,
                            SurfaceKind::MessageText,
                            user,
                        ) {
                            Ok(Some(v)) => {
                                ev.content_verdict = Some(v);
                            },
                            Ok(None) => {
                                match evaluate_links(&c.link_targets, &config.message_regexes, user) {
                                    Ok(ov) => {
                                        ev.content_verdict = ov;
                                    },
                                    Err(e) => {
                                        return Err(e);
                                    },
                                }
                            },
                            Err(e) => {
                                return Err(e);
                            },
                        }
                        let cmd = String::from_str("/aufseher ping");
                        ev.ping = t == cmd;
                        if config.openai_api_key.is_some() && ev.content_verdict.is_none() {
                            ev.classifier_text = Some(t);
                        }
                    },
                    None => {
                        ev.unsupported_media = match &c.media {
                            MediaBody::Other => true,
                            _ => false,
                        };
                    },
                }
                match &c.forward_from_user {
                    Some(fu) => {
                        match evaluate_named_surface(
                            fu.full_name.as_str(),
                            &config.name_regexes,
                            SurfaceKind::ForwarderName,
                            user,
                        ) {
                            Ok(ov) => {
                                ev.forwarder_name_verdict = ov;
                            },
                            Err(e) => {
                                return Err(e);
                            },
                        }
                    },
                    None => {},
                }
                match &c.forward_from_chat_title {
                    Some(title) => {
                        match evaluate_named_surface(
                            title.as_str(),
                            &config.name_regexes,
                            SurfaceKind::ForwardedChatTitle,
                            user,
                        ) {
                            Ok(ov) => {
                                ev.forwarded_chat_verdict = ov;
                            },
                            Err(e) => {
                                return Err(e);
                            },
                        }
                    },
                    None => {},
                }
            }
        },
    }
    if let Some(user) = &msg.sender {
        match evaluate_named_surface(
            user.full_name.as_str(),
            &config.name_regexes,
            SurfaceKind::SenderName,
            user,
        ) {
            Ok(ov) => {
                ev.sender_name_verdict = ov;
            },
            Err(e) => {
                return Err(e);
            },
        }
    }
    Ok(ev)
}

/// Interprets the external classifier's boolean answer. A positive
/// indicator is treated like a content-rule match and yields an
/// enforcement request against the sender; a negative one yields nothing.
pub fn classifier_job(chat_id: i64, message_id: i32, sender: &UserInfo, spam: bool) -> (r: Option<
    EnforcementJob,
>)
    ensures
        spam ==> (r matches Some(j) && j.chat_id == chat_id && j.message_id == message_id && j.user
            == *sender),
        !spam ==> r is None,
{
    if spam {
        Some(EnforcementJob { chat_id, message_id, user: sender.duplicate() })
    } else {
        None
    }
}

} // verus!
