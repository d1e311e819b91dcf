use aufseher::enforce::{
    ban_notice, escape_markdown, format_u64, EnforceAction, EnforceEvent, EnforceState,
    Enforcement, EnforcementJob, Role,
};
use aufseher::events::UserInfo;

fn job(id: u64, name: &str) -> EnforcementJob {
    EnforcementJob { chat_id: -100123, message_id: 42, user: UserInfo { id, full_name: name.to_string() } }
}

#[test]
fn enforcement_starts_with_exemption_query() {
    let (machine, action) = Enforcement::start(job(1, "Bob"));
    assert!(action == EnforceAction::QueryRole);
    assert!(machine.state == EnforceState::CheckingExemption);
    assert!(!machine.delete_failed);
}

#[test]
fn administrator_is_exempt_and_nothing_destructive_happens() {
    // An administrator's name matched: the exemption check short-circuits
    // before any deletion, ban or notification.
    let (mut machine, first) = Enforcement::start(job(1, "AdminWithBadName"));
    assert!(first == EnforceAction::QueryRole);
    let next = machine.on_event(EnforceEvent::RoleIs(Role::Administrator));
    assert!(next == EnforceAction::Finished);
    assert!(machine.state == EnforceState::DoneExempt);
    // Further outcomes change nothing.
    assert!(machine.on_event(EnforceEvent::StepOk) == EnforceAction::Finished);
    assert!(machine.state == EnforceState::DoneExempt);
}

#[test]
fn owner_is_exempt() {
    let (mut machine, _) = Enforcement::start(job(1, "Owner"));
    assert!(machine.on_event(EnforceEvent::RoleIs(Role::Owner)) == EnforceAction::Finished);
    assert!(machine.state == EnforceState::DoneExempt);
}

#[test]
fn full_enforcement_runs_in_order_for_members() {
    let (mut machine, first) = Enforcement::start(job(7, "Spammer"));
    let mut actions = vec![first];
    actions.push(machine.on_event(EnforceEvent::RoleIs(Role::Member)));
    actions.push(machine.on_event(EnforceEvent::StepOk));
    actions.push(machine.on_event(EnforceEvent::StepOk));
    actions.push(machine.on_event(EnforceEvent::StepOk));
    assert!(
        actions
            == vec![
                EnforceAction::QueryRole,
                EnforceAction::DeleteMessage,
                EnforceAction::BanUser,
                EnforceAction::SendNotice,
                EnforceAction::Finished,
            ]
    );
    assert!(machine.state == EnforceState::DoneEnforced);
    assert!(!machine.delete_failed);
}

#[test]
fn failed_deletion_does_not_block_the_ban() {
    let (mut machine, _) = Enforcement::start(job(7, "Spammer"));
    machine.on_event(EnforceEvent::RoleIs(Role::Member));
    let after_delete = machine.on_event(EnforceEvent::StepFailed);
    assert!(after_delete == EnforceAction::BanUser);
    assert!(machine.delete_failed);
    assert!(machine.on_event(EnforceEvent::StepOk) == EnforceAction::SendNotice);
    assert!(machine.on_event(EnforceEvent::StepOk) == EnforceAction::Finished);
    assert!(machine.state == EnforceState::DoneEnforced);
    assert!(machine.delete_failed);
}

#[test]
fn failed_ban_stops_the_run_without_notice() {
    let (mut machine, _) = Enforcement::start(job(7, "Spammer"));
    machine.on_event(EnforceEvent::RoleIs(Role::Member));
    machine.on_event(EnforceEvent::StepOk);
    let after_ban = machine.on_event(EnforceEvent::StepFailed);
    assert!(after_ban == EnforceAction::Finished);
    assert!(machine.state == EnforceState::Failed);
}

#[test]
fn failed_role_query_aborts_the_run() {
    let (mut machine, _) = Enforcement::start(job(7, "Spammer"));
    assert!(machine.on_event(EnforceEvent::RoleQueryFailed) == EnforceAction::Finished);
    assert!(machine.state == EnforceState::Failed);
}

#[test]
fn failed_notice_reports_failure() {
    let (mut machine, _) = Enforcement::start(job(7, "Spammer"));
    machine.on_event(EnforceEvent::RoleIs(Role::Member));
    machine.on_event(EnforceEvent::StepOk);
    machine.on_event(EnforceEvent::StepOk);
    assert!(machine.on_event(EnforceEvent::StepFailed) == EnforceAction::Finished);
    assert!(machine.state == EnforceState::Failed);
}

#[test]
fn format_u64_writes_decimal() {
    assert!(format_u64(0) == "0");
    assert!(format_u64(7) == "7");
    assert!(format_u64(1234567890) == "1234567890");
    assert!(format_u64(u64::MAX) == "18446744073709551615");
}

#[test]
fn escape_markdown_escapes_markup_characters() {
    assert!(escape_markdown("a.b") == "a\\.b");
    assert!(escape_markdown("[x](y)") == "\\[x\\]\\(y\\)");
    assert!(escape_markdown("a_b*c~d`e") == "a\\_b\\*c\\~d\\`e");
    assert!(escape_markdown("plain") == "plain");
    assert!(escape_markdown("back\\slash") == "back\\\\slash");
}

#[test]
fn ban_notice_names_and_escapes_the_identity() {
    let user = UserInfo { id: 5, full_name: "Bob".to_string() };
    assert!(ban_notice(&user) == "User [Bob \\(5\\)](tg://user?id\\=5) has been banned\\.");

    let tricky = UserInfo { id: 12, full_name: "Dr. Evil_[x]".to_string() };
    assert!(
        ban_notice(&tricky)
            == "User [Dr\\. Evil\\_\\[x\\] \\(12\\)](tg://user?id\\=12) has been banned\\."
    );
}

#[test]
fn notice_text_comes_from_the_job_identity() {
    let (machine, _) = Enforcement::start(job(5, "Bob"));
    assert!(machine.notice_text() == "User [Bob \\(5\\)](tg://user?id\\=5) has been banned\\.");
}
