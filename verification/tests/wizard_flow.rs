//! Driving the conversation engine turn by turn.

use chatterbox::{
    accept_incoming_message, get_config, DesiredValue, DraftStore, FlowStatus, JobStore, Message,
    OptionType,
};
use chrono::Datelike;

fn send(user: &str, text: &str, drafts: &mut DraftStore, jobs: &mut JobStore) -> FlowStatus {
    accept_incoming_message(
        &user.to_owned(),
        &Message::Message(text.to_owned()),
        drafts,
        jobs,
    )
}

fn step_message(status: &FlowStatus) -> &str {
    match status {
        FlowStatus::Step(c) => c.message.as_str(),
        _ => panic!("expected a step prompt"),
    }
}

fn error_of(status: &FlowStatus) -> (&str, &DesiredValue) {
    match status {
        FlowStatus::Error {
            message,
            desired_value,
        } => (message.as_str(), desired_value),
        _ => panic!("expected an error"),
    }
}

#[test]
fn no_draft_plain_text_then_full_daily_run() {
    let mut drafts = DraftStore::new();
    let mut jobs = JobStore::new();
    let u = "77";

    // A plain message with no draft: corrective error, no draft created.
    let r = send(u, "hello", &mut drafts, &mut jobs);
    let (msg, dv) = error_of(&r);
    assert_eq!(msg, "Hi! to get started, use /start.");
    assert!(matches!(dv, DesiredValue::Start));
    // Still no draft: the same message yields the same answer.
    let r = send(u, "hello again", &mut drafts, &mut jobs);
    assert_eq!(error_of(&r).0, "Hi! to get started, use /start.");

    // /start opens the wizard at the message step.
    let r = send(u, "/start", &mut drafts, &mut jobs);
    assert_eq!(step_message(&r), "Please send the message you'd like sent");

    let r = send(u, "buy milk", &mut drafts, &mut jobs);
    assert_eq!(step_message(&r), "How often would you like this sent?");

    // Daily skips straight to the time step.
    let r = send(u, "Daily", &mut drafts, &mut jobs);
    assert_eq!(step_message(&r), "What time should the first message be sent?");

    // A malformed time is rejected and the step does not move.
    let r = send(u, "25:61", &mut drafts, &mut jobs);
    let (msg, dv) = error_of(&r);
    assert_eq!(
        msg,
        "Hmm... Sorry, I don't understand that. Can you send it in the 24-hour HH:MM format?"
    );
    assert!(matches!(dv, DesiredValue::StartTime));

    let r = send(u, "09:30", &mut drafts, &mut jobs);
    assert_eq!(
        step_message(&r),
        "Please \"mention\" the chat or channel where you would like the data posted."
    );

    // A chat reference must be a mention.
    let r = send(u, "INVALID", &mut drafts, &mut jobs);
    assert_eq!(
        error_of(&r).0,
        "Please provide a valid chat by \"mentioning\" it."
    );

    let r = send(u, "@mychat", &mut drafts, &mut jobs);
    assert_eq!(
        step_message(&r),
        "Would you like this sent by your own custom bot?"
    );

    // Declining a custom credential finalizes immediately.
    let r = send(u, "no", &mut drafts, &mut jobs);
    assert!(matches!(r, FlowStatus::Done));

    let stored = get_config(&jobs, &u.to_owned(), 1).expect("finalized reminder must be stored");
    assert_eq!(stored.chat_id, "@mychat");
    match &stored.message {
        Message::Message(t) => assert_eq!(t, "buy milk"),
        _ => panic!("expected text payload"),
    }

    // The draft is gone: another plain message asks for /start again.
    let r = send(u, "hello", &mut drafts, &mut jobs);
    assert_eq!(error_of(&r).0, "Hi! to get started, use /start.");

    // And the listing shows exactly the one reminder.
    let r = send(u, "/list", &mut drafts, &mut jobs);
    match r {
        FlowStatus::Info(text) => assert_eq!(text, "1: Sent daily at 09:30\n"),
        _ => panic!("expected info"),
    }
}

#[test]
fn every_path_reaches_done_exactly_once() {
    // All ten path shapes: five frequencies, with and without a custom
    // credential. Each run reports completion exactly once, at the end.
    for freq in ["Daily", "Weekly", "Biweekly", "Monthly", "Yearly"] {
        for with_token in [false, true] {
            let mut drafts = DraftStore::new();
            let mut jobs = JobStore::new();
            let u = "pathuser";
            let mut turns: Vec<&str> = vec!["/start", "the message", freq];
            if freq != "Daily" {
                turns.push("May");
                turns.push("20");
            }
            turns.push("06:45");
            turns.push("@dest");
            if with_token {
                turns.push("yes");
                turns.push("tok");
            } else {
                turns.push("no");
            }
            let last = turns.len() - 1;
            for (i, turn) in turns.iter().enumerate() {
                let r = send(u, turn, &mut drafts, &mut jobs);
                if i == last {
                    assert!(matches!(r, FlowStatus::Done), "{} should finish", freq);
                } else {
                    assert!(
                        !matches!(r, FlowStatus::Done | FlowStatus::DoneWithMessage(_)),
                        "{} finished early at turn {}",
                        freq,
                        i
                    );
                }
            }
            assert!(get_config(&jobs, &u.to_owned(), 1).is_ok());
        }
    }
}

#[test]
fn cancel_without_draft_is_a_noop() {
    let mut drafts = DraftStore::new();
    let mut jobs = JobStore::new();
    let r = send("u1", "/cancel", &mut drafts, &mut jobs);
    assert!(matches!(r, FlowStatus::Cancelled));
    // No draft was created by the cancel.
    let r = send("u1", "anything", &mut drafts, &mut jobs);
    assert_eq!(error_of(&r).0, "Hi! to get started, use /start.");
}

#[test]
fn cancel_discards_a_live_draft() {
    let mut drafts = DraftStore::new();
    let mut jobs = JobStore::new();
    send("u2", "/start", &mut drafts, &mut jobs);
    send("u2", "note", &mut drafts, &mut jobs);
    // Commands match without regard to case.
    let r = send("u2", "/CANCEL", &mut drafts, &mut jobs);
    assert!(matches!(r, FlowStatus::Cancelled));
    let r = send("u2", "note", &mut drafts, &mut jobs);
    assert_eq!(error_of(&r).0, "Hi! to get started, use /start.");
}

#[test]
fn day_validation_uses_fixed_month_table() {
    let mut drafts = DraftStore::new();
    let mut jobs = JobStore::new();
    let u = "days";
    send(u, "/start", &mut drafts, &mut jobs);
    send(u, "reminder", &mut drafts, &mut jobs);
    let r = send(u, "Monthly", &mut drafts, &mut jobs);
    assert_eq!(step_message(&r), "Please select your scheduled month.");

    let r = send(u, "February", &mut drafts, &mut jobs);
    assert_eq!(step_message(&r), "Please select a day of month");

    // February 29 never exists in the fixed non-leap table.
    let r = send(u, "29", &mut drafts, &mut jobs);
    let (msg, dv) = error_of(&r);
    assert_eq!(msg, "Please use one of the provided buttons to select your day.");
    assert!(matches!(dv, DesiredValue::StartDay));

    let r = send(u, "28", &mut drafts, &mut jobs);
    assert_eq!(step_message(&r), "What time should the first message be sent?");

    // April has 30 days.
    let u2 = "days2";
    send(u2, "/start", &mut drafts, &mut jobs);
    send(u2, "reminder", &mut drafts, &mut jobs);
    send(u2, "Monthly", &mut drafts, &mut jobs);
    let r = send(u2, "April", &mut drafts, &mut jobs);
    assert_eq!(step_message(&r), "Please select a day of month");
    let r = send(u2, "31", &mut drafts, &mut jobs);
    assert_eq!(
        error_of(&r).0,
        "Please use one of the provided buttons to select your day."
    );
    let r = send(u2, "30", &mut drafts, &mut jobs);
    assert_eq!(step_message(&r), "What time should the first message be sent?");
}

#[test]
fn frequency_branches_daily_to_time_others_to_month() {
    for (answer, expect_month) in [
        ("Daily", false),
        ("Weekly", true),
        ("Biweekly", true),
        ("Monthly", true),
        ("Yearly", true),
    ] {
        let mut drafts = DraftStore::new();
        let mut jobs = JobStore::new();
        let u = "branch";
        send(u, "/start", &mut drafts, &mut jobs);
        send(u, "m", &mut drafts, &mut jobs);
        let r = send(u, answer, &mut drafts, &mut jobs);
        let expected = if expect_month {
            "Please select your scheduled month."
        } else {
            "What time should the first message be sent?"
        };
        assert_eq!(step_message(&r), expected);
    }
}

#[test]
fn frequency_rejects_unknown_answers() {
    let mut drafts = DraftStore::new();
    let mut jobs = JobStore::new();
    let u = "freq";
    send(u, "/start", &mut drafts, &mut jobs);
    send(u, "m", &mut drafts, &mut jobs);
    let r = send(u, "sometimes", &mut drafts, &mut jobs);
    let (msg, dv) = error_of(&r);
    assert_eq!(msg, "Please select a frequency.");
    assert!(matches!(dv, DesiredValue::Frequency));
    // Case does not matter for a valid answer.
    let r = send(u, "wEEkly", &mut drafts, &mut jobs);
    assert_eq!(step_message(&r), "Please select your scheduled month.");
}

#[test]
fn weekly_finalize_records_the_real_weekday() {
    let mut drafts = DraftStore::new();
    let mut jobs = JobStore::new();
    let u = "weekly";
    send(u, "/start", &mut drafts, &mut jobs);
    send(u, "water plants", &mut drafts, &mut jobs);
    send(u, "Weekly", &mut drafts, &mut jobs);
    send(u, "January", &mut drafts, &mut jobs);
    send(u, "15", &mut drafts, &mut jobs);
    send(u, "08:00", &mut drafts, &mut jobs);
    send(u, "@greenhouse", &mut drafts, &mut jobs);
    // Accepting a custom credential leads to the token step.
    let r = send(u, "YES", &mut drafts, &mut jobs);
    assert_eq!(step_message(&r), "Please provide the bot token.");
    let r = send(u, "tok-123", &mut drafts, &mut jobs);
    assert!(matches!(r, FlowStatus::Done));

    // The listing names the weekday January 15 falls on this year.
    let year = chrono::Utc::now().year();
    let weekday = chrono::NaiveDate::from_ymd_opt(year, 1, 15)
        .unwrap()
        .weekday();
    let name = match weekday {
        chrono::Weekday::Mon => "monday",
        chrono::Weekday::Tue => "tuesday",
        chrono::Weekday::Wed => "wednesday",
        chrono::Weekday::Thu => "thursday",
        chrono::Weekday::Fri => "friday",
        chrono::Weekday::Sat => "saturday",
        chrono::Weekday::Sun => "sunday",
    };
    let r = send(u, "/list", &mut drafts, &mut jobs);
    match r {
        FlowStatus::Info(text) => {
            assert_eq!(text, format!("1: Sent weekly on {} at 08:00\n", name))
        }
        _ => panic!("expected info"),
    }
}

#[test]
fn biweekly_finalize_records_weekday_and_parity() {
    let mut drafts = DraftStore::new();
    let mut jobs = JobStore::new();
    let u = "biweekly";
    send(u, "/start", &mut drafts, &mut jobs);
    send(u, "stand-up", &mut drafts, &mut jobs);
    let r = send(u, "Biweekly", &mut drafts, &mut jobs);
    assert_eq!(step_message(&r), "Please select your scheduled month.");
    send(u, "June", &mut drafts, &mut jobs);
    send(u, "10", &mut drafts, &mut jobs);
    send(u, "14:45", &mut drafts, &mut jobs);
    send(u, "@standup", &mut drafts, &mut jobs);
    let r = send(u, "no", &mut drafts, &mut jobs);
    assert!(matches!(r, FlowStatus::Done));

    let year = chrono::Utc::now().year();
    let date = chrono::NaiveDate::from_ymd_opt(year, 6, 10).unwrap();
    let name = match date.weekday() {
        chrono::Weekday::Mon => "monday",
        chrono::Weekday::Tue => "tuesday",
        chrono::Weekday::Wed => "wednesday",
        chrono::Weekday::Thu => "thursday",
        chrono::Weekday::Fri => "friday",
        chrono::Weekday::Sat => "saturday",
        chrono::Weekday::Sun => "sunday",
    };
    let r = send(u, "/list", &mut drafts, &mut jobs);
    match r {
        FlowStatus::Info(text) => {
            assert_eq!(text, format!("1: Sent bi-weekly on {} at 14:45\n", name))
        }
        _ => panic!("expected info"),
    }
}

#[test]
fn token_answer_must_be_nonempty() {
    let mut drafts = DraftStore::new();
    let mut jobs = JobStore::new();
    let u = "tok2";
    send(u, "/start", &mut drafts, &mut jobs);
    send(u, "m", &mut drafts, &mut jobs);
    send(u, "Daily", &mut drafts, &mut jobs);
    send(u, "10:00", &mut drafts, &mut jobs);
    send(u, "@c", &mut drafts, &mut jobs);
    send(u, "yes", &mut drafts, &mut jobs);
    let r = send(u, "", &mut drafts, &mut jobs);
    let (msg, dv) = error_of(&r);
    assert_eq!(msg, "Please provide the bot token.");
    assert!(matches!(dv, DesiredValue::Token));
    let r = send(u, "tok", &mut drafts, &mut jobs);
    assert!(matches!(r, FlowStatus::Done));
    // Slot numbers below 1 never hold a reminder.
    assert!(get_config(&jobs, &u.to_owned(), 0).is_err());
    assert!(get_config(&jobs, &u.to_owned(), -3).is_err());
    assert!(get_config(&jobs, &u.to_owned(), 1).is_ok());
}

#[test]
fn has_token_answer_is_never_rejected() {
    let mut drafts = DraftStore::new();
    let mut jobs = JobStore::new();
    let u = "token";
    send(u, "/start", &mut drafts, &mut jobs);
    send(u, "m", &mut drafts, &mut jobs);
    send(u, "Daily", &mut drafts, &mut jobs);
    send(u, "10:00", &mut drafts, &mut jobs);
    send(u, "@c", &mut drafts, &mut jobs);
    // Anything but a case-insensitive "yes" declines and finalizes.
    let r = send(u, "maybe", &mut drafts, &mut jobs);
    assert!(matches!(r, FlowStatus::Done));
    assert!(get_config(&jobs, &u.to_owned(), 1).is_ok());
}

#[test]
fn empty_message_is_rejected() {
    let mut drafts = DraftStore::new();
    let mut jobs = JobStore::new();
    let u = "empty";
    send(u, "/start", &mut drafts, &mut jobs);
    let r = send(u, "", &mut drafts, &mut jobs);
    let (msg, dv) = error_of(&r);
    assert_eq!(msg, "Send the message or media you'd like sent.");
    assert!(matches!(dv, DesiredValue::Message));
}

#[test]
fn media_payload_is_accepted_at_message_step() {
    let mut drafts = DraftStore::new();
    let mut jobs = JobStore::new();
    let u = "media";
    send(u, "/start", &mut drafts, &mut jobs);
    let r = accept_incoming_message(
        &u.to_owned(),
        &Message::Photo("file-abc".to_owned()),
        &mut drafts,
        &mut jobs,
    );
    assert_eq!(step_message(&r), "How often would you like this sent?");
    send(u, "Daily", &mut drafts, &mut jobs);
    send(u, "07:00", &mut drafts, &mut jobs);
    send(u, "@pics", &mut drafts, &mut jobs);
    let r = send(u, "no", &mut drafts, &mut jobs);
    assert!(matches!(r, FlowStatus::Done));
    let stored = get_config(&jobs, &u.to_owned(), 1).unwrap();
    match &stored.message {
        Message::Photo(id) => assert_eq!(id, "file-abc"),
        _ => panic!("expected the photo payload"),
    }
}

#[test]
fn month_answers_use_buttons_only() {
    let mut drafts = DraftStore::new();
    let mut jobs = JobStore::new();
    let u = "months";
    send(u, "/start", &mut drafts, &mut jobs);
    send(u, "m", &mut drafts, &mut jobs);
    send(u, "Yearly", &mut drafts, &mut jobs);
    let r = send(u, "Smarch", &mut drafts, &mut jobs);
    let (msg, dv) = error_of(&r);
    assert_eq!(
        msg,
        "Please use one of the provided buttons to select your month."
    );
    assert!(matches!(dv, DesiredValue::StartMonth));
    let r = send(u, "december", &mut drafts, &mut jobs);
    assert_eq!(step_message(&r), "Please select a day of month");
}

#[test]
fn commands_interrupt_any_step() {
    let mut drafts = DraftStore::new();
    let mut jobs = JobStore::new();
    let u = "interrupt";
    send(u, "/start", &mut drafts, &mut jobs);
    send(u, "m", &mut drafts, &mut jobs);
    // /start replaces the draft and returns to the message step.
    let r = send(u, "/start", &mut drafts, &mut jobs);
    assert_eq!(step_message(&r), "Please send the message you'd like sent");
    // An unknown command is refused without touching the draft.
    let r = send(u, "/frobnicate", &mut drafts, &mut jobs);
    assert_eq!(error_of(&r).0, "Invalid command.");
    let r = send(u, "once more", &mut drafts, &mut jobs);
    assert_eq!(step_message(&r), "How often would you like this sent?");
}

#[test]
fn delete_command_needs_an_argument() {
    let mut drafts = DraftStore::new();
    let mut jobs = JobStore::new();
    let r = send("del", "/delete", &mut drafts, &mut jobs);
    assert_eq!(error_of(&r).0, "Delete requires exactly one argument");
}

#[test]
fn delete_command_removes_the_slot() {
    let mut drafts = DraftStore::new();
    let mut jobs = JobStore::new();
    let u = "del2";
    send(u, "/start", &mut drafts, &mut jobs);
    send(u, "m", &mut drafts, &mut jobs);
    send(u, "Daily", &mut drafts, &mut jobs);
    send(u, "11:00", &mut drafts, &mut jobs);
    send(u, "@c", &mut drafts, &mut jobs);
    send(u, "no", &mut drafts, &mut jobs);
    assert!(get_config(&jobs, &u.to_owned(), 1).is_ok());

    let r = send(u, "/delete 1", &mut drafts, &mut jobs);
    assert!(matches!(r, FlowStatus::Done));
    assert!(get_config(&jobs, &u.to_owned(), 1).is_err());

    // A slot that does not exist, or a malformed argument, is a no-op.
    let r = send(u, "/delete 9", &mut drafts, &mut jobs);
    assert!(matches!(r, FlowStatus::Done));
    let r = send(u, "/delete one", &mut drafts, &mut jobs);
    assert!(matches!(r, FlowStatus::Done));
}

#[test]
fn frequency_prompt_offers_the_five_kinds() {
    let mut drafts = DraftStore::new();
    let mut jobs = JobStore::new();
    let u = "grid";
    send(u, "/start", &mut drafts, &mut jobs);
    let r = send(u, "m", &mut drafts, &mut jobs);
    match r {
        FlowStatus::Step(c) => match c.option_type {
            OptionType::Options(rows) => {
                assert_eq!(
                    rows,
                    vec![vec![
                        "Daily".to_owned(),
                        "Weekly".to_owned(),
                        "Biweekly".to_owned(),
                        "Monthly".to_owned(),
                        "Yearly".to_owned(),
                    ]]
                );
            }
            _ => panic!("expected options"),
        },
        _ => panic!("expected a step prompt"),
    }
}

#[test]
fn day_prompt_offers_rows_of_seven() {
    let mut drafts = DraftStore::new();
    let mut jobs = JobStore::new();
    let u = "grid2";
    send(u, "/start", &mut drafts, &mut jobs);
    send(u, "m", &mut drafts, &mut jobs);
    send(u, "Monthly", &mut drafts, &mut jobs);
    let r = send(u, "February", &mut drafts, &mut jobs);
    match r {
        FlowStatus::Step(c) => match c.option_type {
            OptionType::Options(rows) => {
                assert_eq!(rows.len(), 5);
                assert_eq!(rows[0].len(), 7);
                assert_eq!(rows[0][0], "1");
                assert_eq!(rows[3][6], "28");
                assert_eq!(rows[4].len(), 0);
            }
            _ => panic!("expected options"),
        },
        _ => panic!("expected a step prompt"),
    }
}
