//! The conversation engine: given a user id and one incoming message, it
//! recognizes global commands, validates the message against the user's
//! current step, advances or rejects, and at the terminal step hands the
//! finished reminder to the job store and deletes the draft.

use vstd::prelude::*;

use crate::calendar::{
    days_of_month_name, get_days_by_month, month_number_of_name, month_number_str, month_of_num,
    weekday_from_number, weekday_of_idx,
};
use crate::dates::{current_year, date_iso_week, date_weekday_number, iso_week_of,
    weekday_number_of};
use crate::drafts::{delete_state, get_state, save_state, DraftStore};
use crate::recurrence::{encode_spec, ScheduleV};
use crate::store::{
    can_alloc, create_schedule, create_spec, delete_reminder, delete_reminder_spec, list_info,
    list_user_reminders, Config, ConfigV, JobStore, JobStoreV, Message, MessageV,
};
use crate::strutil::{
    all_digits, ci_eq, digits_val, find_char, first_occur, parse_u32_bounded, starts_with_char,
};
use crate::wizard::{
    advance, check_day, check_time, day_val_of, flow_status_spec, fresh_draft, freq_of, is_yes,
    opt_or_empty, strip_plus, valid_day_str, valid_time, wf_draft, Command, CommandV,
    ConfigInProgress, Coorespondance, CoorV, DesiredValue, DraftV, FlowStatus, OptV, OptionType,
    Schedule, StatusV, UserInput, UserInputV,
};

verus! {

// ---------------------------------------------------------------------------
// Commands in raw text
// ---------------------------------------------------------------------------

/// The raw text up to the first space.
pub open spec fn first_word(s: Seq<char>) -> Seq<char> {
    let i = first_occur(s, ' ');
    if i == -1 {
        s
    } else {
        s.take(i)
    }
}

/// The raw text between the first space and the next one, if a first
/// space exists at all.
pub open spec fn second_word(s: Seq<char>) -> Option<Seq<char>> {
    let i = first_occur(s, ' ');
    if i == -1 {
        None
    } else {
        let rest = s.skip(i + 1);
        let j = first_occur(rest, ' ');
        if j == -1 {
            Some(rest)
        } else {
            Some(rest.take(j))
        }
    }
}

/// The command a leading-slash message names: its first word, matched
/// without regard to ASCII case; a delete needs a second word for its
/// slot argument.
pub open spec fn command_of(s: Seq<char>) -> Option<CommandV> {
    let w = first_word(s);
    if ci_eq(w, "/start"@) {
        Some(CommandV::Start)
    } else if ci_eq(w, "/cancel"@) {
        Some(CommandV::Cancel)
    } else if ci_eq(w, "/list"@) {
        Some(CommandV::List)
    } else if ci_eq(w, "/delete"@) {
        match second_word(s) {
            Some(a) => Some(CommandV::Delete(a)),
            None => None,
        }
    } else {
        None
    }
}

/// The corrective message for a leading-slash message that names no
/// command.
pub open spec fn command_err_msg(s: Seq<char>) -> Seq<char> {
    if ci_eq(first_word(s), "/delete"@) {
        "Delete requires exactly one argument"@
    } else {
        "Invalid command."@
    }
}

/// Reads a global command out of a leading-slash message.
fn load_command(message: &String) -> (r: Result<UserInput, String>)
    ensures
        (match r {
            Ok(u) => command_of(message@) is Some && u@ == UserInputV::Command(
                command_of(message@)->0,
            ),
            Err(e) => command_of(message@) is None && e@ == command_err_msg(message@),
        }),
{
    let s = message.as_str();
    let len = s.unicode_len();
    let found = find_char(s, ' ');
    proof {
        crate::strutil::lemma_first_occur(s@, ' ');
    }
    let word: &str = match found {
        Some(i) => s.substring_char(0, i),
        None => s,
    };
    proof {
        assert(word@ =~= first_word(message@));
    }
    if crate::strutil::eq_ci(word, "/start") {
        Ok(UserInput::Command(Command::Start))
    } else if crate::strutil::eq_ci(word, "/cancel") {
        Ok(UserInput::Command(Command::Cancel))
    } else if crate::strutil::eq_ci(word, "/list") {
        Ok(UserInput::Command(Command::List))
    } else if crate::strutil::eq_ci(word, "/delete") {
        match found {
            Some(i) => {
                let rest = s.substring_char(i + 1, len);
                proof {
                    assert(rest@ =~= message@.skip(first_occur(message@, ' ') + 1));
                }
                let inner = find_char(rest, ' ');
                proof {
                    crate::strutil::lemma_first_occur(rest@, ' ');
                }
                let arg: &str = match inner {
                    Some(j) => rest.substring_char(0, j),
                    None => rest,
                };
                proof {
                    assert(arg@ =~= second_word(message@)->0);
                }
                Ok(UserInput::Command(Command::Delete(arg.to_owned())))
            },
            None => Err("Delete requires exactly one argument".to_owned()),
        }
    } else {
        Err("Invalid command.".to_owned())
    }
}

// ---------------------------------------------------------------------------
// Validating one message against the current step
// ---------------------------------------------------------------------------

/// Whether the incoming payload is text that begins with '/'.
pub open spec fn is_cmd_text(m: MessageV) -> bool {
    match m {
        MessageV::Message(t) => t.len() > 0 && t[0] == '/',
        _ => false,
    }
}

/// What validation makes of one payload at one step: a global command, a
/// typed validated answer, or a corrective message, exactly as `handle`
/// dispatches them.
pub open spec fn load_input_spec(state: Option<DraftV>, m: MessageV) -> Result<
    UserInputV,
    Seq<char>,
> {
    if is_cmd_text(m) {
        match m {
            MessageV::Message(t) => match command_of(t) {
                Some(c) => Ok(UserInputV::Command(c)),
                None => Err(command_err_msg(t)),
            },
            _ => Err(Seq::empty()),
        }
    } else {
        match state {
            None => Err("Hi! to get started, use /start."@),
            Some(d) => match d.desired_value {
                DesiredValue::Start => Ok(plain_input(m)),
                DesiredValue::Message => match m {
                    MessageV::Message(t) => if t.len() > 0 {
                        Ok(UserInputV::Message(t))
                    } else {
                        Err("Send the message or media you'd like sent."@)
                    },
                    _ => Ok(UserInputV::Media(m)),
                },
                DesiredValue::Frequency => match m {
                    MessageV::Message(t) => if freq_of(t) is Some {
                        Ok(UserInputV::Frequency(freq_of(t)->0))
                    } else {
                        Err("Please select a frequency."@)
                    },
                    _ => Err("Please select a frequency."@),
                },
                DesiredValue::StartMonth => match m {
                    MessageV::Message(t) => if month_number_of_name(t) >= 1 {
                        Ok(UserInputV::Message(t))
                    } else {
                        Err("Please use one of the provided buttons to select your month."@)
                    },
                    _ => Err("Please use one of the provided buttons to select your month."@),
                },
                DesiredValue::StartDay => match m {
                    MessageV::Message(t) => if valid_day_str(
                        t,
                        days_of_month_name(opt_or_empty(d.first_execution_month)),
                    ) {
                        Ok(UserInputV::Message(t))
                    } else {
                        Err("Please use one of the provided buttons to select your day."@)
                    },
                    _ => Err("Please use one of the provided buttons to select your day."@),
                },
                DesiredValue::StartTime => match m {
                    MessageV::Message(t) => if valid_time(t) {
                        Ok(UserInputV::Time(t))
                    } else {
                        Err(
                            "Hmm... Sorry, I don't understand that. Can you send it in the 24-hour HH:MM format?"@,
                        )
                    },
                    _ => Err(
                        "Hmm... Sorry, I don't understand that. Can you send it in the 24-hour HH:MM format?"@,
                    ),
                },
                DesiredValue::Chat => match m {
                    MessageV::Message(t) => if t.len() > 0 && t[0] == '@' {
                        Ok(UserInputV::Message(t))
                    } else {
                        Err("Please provide a valid chat by \"mentioning\" it."@)
                    },
                    _ => Err("Please provide a valid chat by \"mentioning\" it."@),
                },
                DesiredValue::HasToken => Ok(UserInputV::YesNo(is_yes(m))),
                DesiredValue::Token => match m {
                    MessageV::Message(t) => if t.len() > 0 {
                        Ok(UserInputV::Message(t))
                    } else {
                        Err("Please provide the bot token."@)
                    },
                    _ => Err("Please provide the bot token."@),
                },
                DesiredValue::Finished => Ok(plain_input(m)),
            },
        }
    }
}

/// Text stays a message answer; media stays a media answer.
pub open spec fn plain_input(m: MessageV) -> UserInputV {
    match m {
        MessageV::Message(t) => UserInputV::Message(t),
        _ => UserInputV::Media(m),
    }
}

/// Validates one payload against the user's current step, without
/// touching any state.
fn load_input(state: &Option<ConfigInProgress>, message: &Message) -> (r: Result<
    UserInput,
    String,
>)
    ensures
        (match r {
            Ok(u) => load_input_spec(opt_draft_view(state), message@) == Ok::<
                UserInputV,
                Seq<char>,
            >(u@),
            Err(e) => load_input_spec(opt_draft_view(state), message@) == Err::<
                UserInputV,
                Seq<char>,
            >(e@),
        }),
{
    if let Message::Message(t) = message {
        if starts_with_char(t.as_str(), '/') {
            return load_command(t);
        }
    }
    match state {
        Some(st) => match st.desired_value {
            DesiredValue::Start => Ok(plain_input_exec(message)),
            DesiredValue::Message => match message {
                Message::Message(t) => {
                    if t.as_str().unicode_len() > 0 {
                        Ok(UserInput::Message(t.clone()))
                    } else {
                        Err("Send the message or media you'd like sent.".to_owned())
                    }
                },
                _ => Ok(UserInput::Media(message.clone())),
            },
            DesiredValue::Frequency => match message {
                Message::Message(t) => match UserInput::parse_frequency(t) {
                    Ok(u) => Ok(u),
                    Err(_) => Err("Please select a frequency.".to_owned()),
                },
                _ => Err("Please select a frequency.".to_owned()),
            },
            DesiredValue::StartMonth => match message {
                Message::Message(t) => {
                    if month_number_str(t.as_str()) >= 1 {
                        Ok(UserInput::Message(t.clone()))
                    } else {
                        Err("Please use one of the provided buttons to select your month.".to_owned())
                    }
                },
                _ => Err("Please use one of the provided buttons to select your month.".to_owned()),
            },
            DesiredValue::StartDay => match message {
                Message::Message(t) => {
                    let days = match &st.first_execution_month {
                        Some(m) => get_days_by_month(m),
                        None => {
                            proof {
                                crate::calendar::lemma_empty_month_name();
                            }
                            0
                        },
                    };
                    if check_day(t.as_str(), days) {
                        Ok(UserInput::Message(t.clone()))
                    } else {
                        Err("Please use one of the provided buttons to select your day.".to_owned())
                    }
                },
                _ => Err("Please use one of the provided buttons to select your day.".to_owned()),
            },
            DesiredValue::StartTime => match message {
                Message::Message(t) => {
                    if check_time(t.as_str()) {
                        Ok(UserInput::Time(t.clone()))
                    } else {
                        Err(
                            "Hmm... Sorry, I don't understand that. Can you send it in the 24-hour HH:MM format?".to_owned(),
                        )
                    }
                },
                _ => Err(
                    "Hmm... Sorry, I don't understand that. Can you send it in the 24-hour HH:MM format?".to_owned(),
                ),
            },
            DesiredValue::Chat => match message {
                Message::Message(t) => {
                    if starts_with_char(t.as_str(), '@') {
                        Ok(UserInput::Message(t.clone()))
                    } else {
                        Err("Please provide a valid chat by \"mentioning\" it.".to_owned())
                    }
                },
                _ => Err("Please provide a valid chat by \"mentioning\" it.".to_owned()),
            },
            DesiredValue::HasToken => match message {
                Message::Message(t) => Ok(UserInput::YesNo(crate::strutil::eq_ci(
                    t.as_str(),
                    "yes",
                ))),
                _ => Ok(UserInput::YesNo(false)),
            },
            DesiredValue::Token => match message {
                Message::Message(t) => {
                    if t.as_str().unicode_len() > 0 {
                        Ok(UserInput::Message(t.clone()))
                    } else {
                        Err("Please provide the bot token.".to_owned())
                    }
                },
                _ => Err("Please provide the bot token.".to_owned()),
            },
            DesiredValue::Finished => Ok(plain_input_exec(message)),
        },
        None => Err("Hi! to get started, use /start.".to_owned()),
    }
}

fn plain_input_exec(message: &Message) -> (r: UserInput)
    ensures
        r@ == plain_input(message@),
{
    match message {
        Message::Message(t) => UserInput::Message(t.clone()),
        _ => UserInput::Media(message.clone()),
    }
}

/// The view of a loaded draft, as the draft store reports it.
pub open spec fn opt_draft_view(o: &Option<ConfigInProgress>) -> Option<DraftV> {
    match o {
        Some(c) => Some(c@),
        None => None,
    }
}

/// The draft a user has in the store, if any.
pub open spec fn draft_of(d: Map<Seq<char>, DraftV>, u: Seq<char>) -> Option<DraftV> {
    if d.contains_key(u) {
        Some(d[u])
    } else {
        None
    }
}

/// The step an error report names: the user's current step, or the start
/// tag when no draft exists.
pub open spec fn error_step_of(state: Option<DraftV>) -> DesiredValue {
    match state {
        Some(d) => d.desired_value,
        None => DesiredValue::Start,
    }
}

// ---------------------------------------------------------------------------
// Applying a validated answer
// ---------------------------------------------------------------------------

pub open spec fn text_of_input(i: UserInputV) -> Seq<char> {
    match i {
        UserInputV::Message(t) => t,
        UserInputV::ChatLink(t) => t,
        UserInputV::Time(t) => t,
        UserInputV::Date(t) => t,
        UserInputV::Delete(t) => t,
        _ => Seq::empty(),
    }
}

pub open spec fn payload_of_input(i: UserInputV) -> MessageV {
    match i {
        UserInputV::Message(t) => MessageV::Message(t),
        UserInputV::Media(m) => m,
        _ => MessageV::Message(Seq::empty()),
    }
}

pub open spec fn freq_of_input(i: UserInputV) -> Schedule {
    match i {
        UserInputV::Frequency(k) => k,
        _ => Schedule::Daily,
    }
}

pub open spec fn yes_of_input(i: UserInputV) -> bool {
    match i {
        UserInputV::YesNo(b) => b,
        _ => false,
    }
}

/// The draft after one validated answer is written into it: each step
/// fills exactly its own field.
pub open spec fn update_draft(d: DraftV, i: UserInputV) -> DraftV {
    match d.desired_value {
        DesiredValue::Start => d,
        DesiredValue::Message => DraftV { message: Some(payload_of_input(i)), ..d },
        DesiredValue::Frequency => DraftV { schedule: Some(freq_of_input(i)), ..d },
        DesiredValue::StartMonth => DraftV { first_execution_month: Some(text_of_input(i)), ..d },
        DesiredValue::StartDay => DraftV { first_execution_day: Some(text_of_input(i)), ..d },
        DesiredValue::StartTime => DraftV { first_execution_time: Some(text_of_input(i)), ..d },
        DesiredValue::Chat => DraftV { chat_id: Some(text_of_input(i)), ..d },
        DesiredValue::HasToken => DraftV { has_token: Some(yes_of_input(i)), ..d },
        DesiredValue::Token => DraftV { token: Some(text_of_input(i)), ..d },
        DesiredValue::Finished => d,
    }
}

/// Whether this answer completes the wizard: providing the token does,
/// and declining a custom credential does.
pub open spec fn finalizes(d: DraftV, i: UserInputV) -> bool {
    ||| d.desired_value == DesiredValue::Token
    ||| (d.desired_value == DesiredValue::HasToken && !yes_of_input(i))
}

// ---------------------------------------------------------------------------
// Finalization
// ---------------------------------------------------------------------------

/// The finished reminder's body, read out of the completed draft.
pub open spec fn config_of_draft(d: DraftV) -> ConfigV {
    ConfigV {
        chat_id: opt_or_empty(d.chat_id),
        message: match d.message {
            Some(m) => m,
            None => MessageV::Message(Seq::empty()),
        },
    }
}

/// The recurrence definition a completed draft describes, given the year
/// its first execution falls in (which fixes the weekday and week parity
/// of the chosen month and day).
pub open spec fn sched_of_draft(d: DraftV, y: int) -> ScheduleV {
    let time = opt_or_empty(d.first_execution_time);
    let mn = month_number_of_name(opt_or_empty(d.first_execution_month));
    let dv = day_val_of(opt_or_empty(d.first_execution_day));
    match d.schedule {
        Some(Schedule::Weekly) => ScheduleV::Weekly {
            weekday: weekday_of_idx(weekday_number_of(y, mn, dv)),
            time,
        },
        Some(Schedule::Biweekly) => ScheduleV::BiWeekly {
            weekday: weekday_of_idx(weekday_number_of(y, mn, dv)),
            time,
            odd: iso_week_of(y, mn, dv) % 2 == 0,
        },
        Some(Schedule::Monthly) => ScheduleV::Monthly { day: dv as u32, time },
        Some(Schedule::Yearly) => ScheduleV::Yearly {
            day: dv as u32,
            time,
            month: month_of_num(mn),
        },
        _ => ScheduleV::Daily { time },
    }
}

/// The job store after a completed draft is handed to it: a create at
/// the smallest unused slot, or — only when the user's slot numbers are
/// exhausted — the body written with no slot pointing at it.
pub open spec fn finalize_jobs(j: JobStoreV, u: Seq<char>, d: DraftV, y: int) -> JobStoreV {
    let c = config_of_draft(d);
    let s = sched_of_draft(d, y);
    if can_alloc(j.index, u) {
        create_spec(j, u, c, s)
    } else {
        JobStoreV { canonical: j.canonical.insert(encode_spec(s, u), c), index: j.index }
    }
}

/// A draft the store can finalize: every field the reminder body and its
/// recurrence need is present and valid.
pub open spec fn closeable(d: DraftV) -> bool {
    &&& d.message is Some
    &&& d.chat_id is Some
    &&& d.schedule is Some
    &&& d.first_execution_time is Some
    &&& valid_time(opt_or_empty(d.first_execution_time))
    &&& (d.schedule != Some(Schedule::Daily) ==> {
        &&& d.first_execution_month is Some
        &&& 1 <= month_number_of_name(opt_or_empty(d.first_execution_month)) <= 12
        &&& d.first_execution_day is Some
        &&& valid_day_str(
            opt_or_empty(d.first_execution_day),
            days_of_month_name(opt_or_empty(d.first_execution_month)),
        )
    })
}

/// The numeric value of a validated day answer.
fn parse_day_value(s: &str) -> (r: u32)
    requires
        valid_day_str(s@, 31),
    ensures
        r == day_val_of(s@),
        1 <= r <= 31,
{
    let len = s.unicode_len();
    let t: &str = if len > 0 && s.get_char(0) == '+' {
        s.substring_char(1, len)
    } else {
        s
    };
    proof {
        assert(t@ =~= strip_plus(s@));
    }
    match parse_u32_bounded(t, 31) {
        Some(v) => v,
        None => vstd::pervasive::unreached(),
    }
}

/// Finalizes a completed draft: builds the reminder body and recurrence
/// definition, hands them to the job store, and deletes the draft. The
/// weekday and week parity of a weekly or biweekly schedule come from the
/// chosen month and day in the current year.
fn close(
    u_id: &String,
    config_in_progress: &ConfigInProgress,
    drafts: &mut DraftStore,
    jobs: &mut JobStore,
)
    requires
        old(drafts).wf(),
        old(jobs).wf(),
        closeable(config_in_progress@),
    ensures
        final(drafts).wf(),
        final(jobs).wf(),
        final(drafts)@ == old(drafts)@.remove(u_id@),
        exists|y: int|
            -262143 <= y <= 262142 && final(jobs)@ == finalize_jobs(
                old(jobs)@,
                u_id@,
                config_in_progress@,
                y,
            ),
{
    let ghost j0 = jobs@;
    let ghost dv0 = config_in_progress@;
    delete_state(drafts, u_id);

    let chat_id = match &config_in_progress.chat_id {
        Some(c) => c.clone(),
        None => vstd::pervasive::unreached(),
    };
    let message = match &config_in_progress.message {
        Some(m) => m.clone(),
        None => vstd::pervasive::unreached(),
    };
    let config = Config { chat_id, message };
    let time = match &config_in_progress.first_execution_time {
        Some(t) => t.clone(),
        None => vstd::pervasive::unreached(),
    };

    match &config_in_progress.schedule {
        Some(Schedule::Daily) => {
            let schedule = crate::recurrence::Schedule::Daily { time };
            let _ = create_schedule(jobs, u_id, config, schedule);
            proof {
                assert(jobs@ == finalize_jobs(j0, u_id@, dv0, 0));
            }
        },
        Some(Schedule::Weekly) => {
            let y = current_year();
            let mn = crate::calendar::get_month_number(&config_in_progress.first_execution_month);
            let day = match &config_in_progress.first_execution_day {
                Some(d) => parse_day_value(d.as_str()),
                None => vstd::pervasive::unreached(),
            };
            let wd = date_weekday_number(y, mn, day);
            let schedule = crate::recurrence::Schedule::Weekly {
                weekday: weekday_from_number(wd),
                time,
            };
            let _ = create_schedule(jobs, u_id, config, schedule);
            proof {
                assert(jobs@ == finalize_jobs(j0, u_id@, dv0, y as int));
            }
        },
        Some(Schedule::Biweekly) => {
            let y = current_year();
            let mn = crate::calendar::get_month_number(&config_in_progress.first_execution_month);
            let day = match &config_in_progress.first_execution_day {
                Some(d) => parse_day_value(d.as_str()),
                None => vstd::pervasive::unreached(),
            };
            let wd = date_weekday_number(y, mn, day);
            let week = date_iso_week(y, mn, day);
            let schedule = crate::recurrence::Schedule::BiWeekly {
                weekday: weekday_from_number(wd),
                time,
                odd: week % 2 == 0,
            };
            let _ = create_schedule(jobs, u_id, config, schedule);
            proof {
                assert(jobs@ == finalize_jobs(j0, u_id@, dv0, y as int));
            }
        },
        Some(Schedule::Monthly) => {
            let day = match &config_in_progress.first_execution_day {
                Some(d) => parse_day_value(d.as_str()),
                None => vstd::pervasive::unreached(),
            };
            let schedule = crate::recurrence::Schedule::Monthly { day, time };
            let _ = create_schedule(jobs, u_id, config, schedule);
            proof {
                assert(jobs@ == finalize_jobs(j0, u_id@, dv0, 0));
            }
        },
        Some(Schedule::Yearly) => {
            let mn = crate::calendar::get_month_number(&config_in_progress.first_execution_month);
            let day = match &config_in_progress.first_execution_day {
                Some(d) => parse_day_value(d.as_str()),
                None => vstd::pervasive::unreached(),
            };
            let month = match crate::calendar::get_month_from_int(mn as i32) {
                Some(m) => m,
                None => vstd::pervasive::unreached(),
            };
            let schedule = crate::recurrence::Schedule::Yearly { day, time, month };
            let _ = create_schedule(jobs, u_id, config, schedule);
            proof {
                assert(jobs@ == finalize_jobs(j0, u_id@, dv0, 0));
            }
        },
        None => {
            vstd::pervasive::unreached::<()>();
        },
    }
}

// ---------------------------------------------------------------------------
// Per-step handlers
// ---------------------------------------------------------------------------

/// Stores the reminder payload the user sent.
fn process_desired_message(config_in_progress: &mut ConfigInProgress, message: UserInput) -> (closed:
    bool)
    requires
        message matches UserInput::Message(_) || message matches UserInput::Media(_),
    ensures
        !closed,
        final(config_in_progress)@ == (DraftV {
            message: Some(payload_of_input(message@)),
            ..old(config_in_progress)@
        }),
{
    match message {
        UserInput::Message(desired_message) => {
            config_in_progress.message = Some(Message::Message(desired_message));
        },
        UserInput::Media(m) => {
            config_in_progress.message = Some(m);
        },
        _ => vstd::pervasive::unreached(),
    }
    false
}

/// Stores the chosen recurrence kind.
fn process_frequency(config_in_progress: &mut ConfigInProgress, message: UserInput) -> (closed:
    bool)
    requires
        message matches UserInput::Frequency(_),
    ensures
        !closed,
        final(config_in_progress)@ == (DraftV {
            schedule: Some(freq_of_input(message@)),
            ..old(config_in_progress)@
        }),
{
    match message {
        UserInput::Frequency(frequency) => {
            config_in_progress.schedule = Some(frequency);
        },
        _ => vstd::pervasive::unreached(),
    }
    false
}

/// Stores the chosen day of month.
fn process_month_day(config_in_progress: &mut ConfigInProgress, message: UserInput) -> (closed:
    bool)
    requires
        message matches UserInput::Message(_),
    ensures
        !closed,
        final(config_in_progress)@ == (DraftV {
            first_execution_day: Some(text_of_input(message@)),
            ..old(config_in_progress)@
        }),
{
    match message {
        UserInput::Message(date) => {
            config_in_progress.first_execution_day = Some(date);
        },
        _ => vstd::pervasive::unreached(),
    }
    false
}

/// Stores the chosen month.
fn process_month(config_in_progress: &mut ConfigInProgress, message: UserInput) -> (closed: bool)
    requires
        message matches UserInput::Message(_),
    ensures
        !closed,
        final(config_in_progress)@ == (DraftV {
            first_execution_month: Some(text_of_input(message@)),
            ..old(config_in_progress)@
        }),
{
    match message {
        UserInput::Message(date) => {
            config_in_progress.first_execution_month = Some(date);
        },
        _ => vstd::pervasive::unreached(),
    }
    false
}

/// Stores the chosen first-execution time.
fn process_time(config_in_progress: &mut ConfigInProgress, message: UserInput) -> (closed: bool)
    requires
        message matches UserInput::Time(_),
    ensures
        !closed,
        final(config_in_progress)@ == (DraftV {
            first_execution_time: Some(text_of_input(message@)),
            ..old(config_in_progress)@
        }),
{
    match message {
        UserInput::Time(time) => {
            config_in_progress.first_execution_time = Some(time);
        },
        _ => vstd::pervasive::unreached(),
    }
    false
}

/// Stores the destination chat reference.
fn process_chat(config_in_progress: &mut ConfigInProgress, message: UserInput) -> (closed: bool)
    requires
        message matches UserInput::Message(_),
    ensures
        !closed,
        final(config_in_progress)@ == (DraftV {
            chat_id: Some(text_of_input(message@)),
            ..old(config_in_progress)@
        }),
{
    match message {
        UserInput::Message(string) => {
            config_in_progress.chat_id = Some(string);
        },
        _ => vstd::pervasive::unreached(),
    }
    false
}

/// Records whether a custom credential will be used; declining completes
/// the wizard early, skipping the token step entirely.
fn process_has_token(
    config_in_progress: &mut ConfigInProgress,
    message: UserInput,
    u_id: &String,
    drafts: &mut DraftStore,
    jobs: &mut JobStore,
) -> (closed: bool)
    requires
        message matches UserInput::YesNo(_),
        old(config_in_progress).desired_value == DesiredValue::HasToken,
        wf_draft(old(config_in_progress)@),
        old(drafts).wf(),
        old(jobs).wf(),
    ensures
        final(drafts).wf(),
        final(jobs).wf(),
        final(config_in_progress)@ == (DraftV {
            has_token: Some(yes_of_input(message@)),
            ..old(config_in_progress)@
        }),
        closed == !yes_of_input(message@),
        yes_of_input(message@) ==> final(drafts)@ == old(drafts)@ && final(jobs)@ == old(jobs)@,
        !yes_of_input(message@) ==> final(drafts)@ == old(drafts)@.remove(u_id@) && (exists|y: int|
            -262143 <= y <= 262142 && final(jobs)@ == finalize_jobs(
                old(jobs)@,
                u_id@,
                final(config_in_progress)@,
                y,
            )),
{
    match message {
        UserInput::YesNo(answer) => {
            config_in_progress.has_token = Some(answer);
            if !answer {
                close(u_id, config_in_progress, drafts, jobs);
                true
            } else {
                false
            }
        },
        _ => vstd::pervasive::unreached(),
    }
}

/// Stores the provided credential token and completes the wizard.
fn process_token(
    config_in_progress: &mut ConfigInProgress,
    message: UserInput,
    u_id: &String,
    drafts: &mut DraftStore,
    jobs: &mut JobStore,
) -> (closed: bool)
    requires
        message matches UserInput::Message(_),
        old(config_in_progress).desired_value == DesiredValue::Token,
        wf_draft(old(config_in_progress)@),
        old(drafts).wf(),
        old(jobs).wf(),
    ensures
        final(drafts).wf(),
        final(jobs).wf(),
        final(config_in_progress)@ == (DraftV {
            token: Some(text_of_input(message@)),
            ..old(config_in_progress)@
        }),
        closed,
        final(drafts)@ == old(drafts)@.remove(u_id@),
        exists|y: int|
            -262143 <= y <= 262142 && final(jobs)@ == finalize_jobs(
                old(jobs)@,
                u_id@,
                final(config_in_progress)@,
                y,
            ),
{
    match message {
        UserInput::Message(token) => {
            config_in_progress.token = Some(token);
        },
        _ => vstd::pervasive::unreached(),
    }
    close(u_id, config_in_progress, drafts, jobs);
    true
}

// ---------------------------------------------------------------------------
// Commands
// ---------------------------------------------------------------------------

/// The job store after a `/delete` with the given raw slot argument: a
/// well-formed number selects that slot, anything else changes nothing.
pub open spec fn delete_cmd_spec(j: JobStoreV, u: Seq<char>, arg: Seq<char>) -> JobStoreV {
    if arg.len() > 0 && all_digits(arg) && 0 <= digits_val(arg) <= u32::MAX {
        delete_reminder_spec(j, u, digits_val(arg) as u32)
    } else {
        j
    }
}

/// The prompt `/start` answers with.
pub open spec fn start_prompt() -> CoorV {
    CoorV { option_type: OptV::Media, message: "Please send the message you'd like sent"@ }
}

/// How a command changes the stores and what it reports: `/start` opens a
/// fresh draft at the message step, `/cancel` drops any draft, `/list`
/// renders the stored reminders, `/delete` removes one slot.
pub open spec fn command_rel(
    d0: Map<Seq<char>, DraftV>,
    j0: JobStoreV,
    u: Seq<char>,
    c: CommandV,
    d1: Map<Seq<char>, DraftV>,
    j1: JobStoreV,
    r: StatusV,
) -> bool {
    match c {
        CommandV::Start => d1 == d0.insert(u, fresh_draft()) && j1 == j0 && r == StatusV::Step(
            start_prompt(),
        ),
        CommandV::Cancel => d1 == d0.remove(u) && j1 == j0 && r == StatusV::Cancelled,
        CommandV::List => d1 == d0 && j1 == j0 && r == StatusV::Info(list_info(j0, u)),
        CommandV::Delete(arg) => d1 == d0 && j1 == delete_cmd_spec(j0, u, arg) && r
            == StatusV::Done,
    }
}

impl Command {
    /// Carries a global command out against the stores.
    pub fn execute(
        &self,
        u_id: &String,
        drafts: &mut DraftStore,
        jobs: &mut JobStore,
    ) -> (r: FlowStatus)
        requires
            old(drafts).wf(),
            old(jobs).wf(),
        ensures
            final(drafts).wf(),
            final(jobs).wf(),
            command_rel(old(drafts)@, old(jobs)@, u_id@, self@, final(drafts)@, final(jobs)@, r@),
    {
        match self {
            Command::Cancel => {
                delete_state(drafts, u_id);
                FlowStatus::Cancelled
            },
            Command::List => FlowStatus::Info(list_user_reminders(jobs, u_id)),
            Command::Start => {
                let fresh = ConfigInProgress {
                    schedule: None,
                    desired_value: DesiredValue::Message,
                    first_execution_month: None,
                    first_execution_day: None,
                    first_execution_time: None,
                    chat_id: None,
                    message: None,
                    has_token: None,
                    token: None,
                };
                save_state(drafts, u_id, &fresh);
                FlowStatus::Step(Coorespondance {
                    option_type: OptionType::Media,
                    message: "Please send the message you'd like sent".to_owned(),
                })
            },
            Command::Delete(to_delete) => {
                match parse_u32_bounded(to_delete.as_str(), u32::MAX) {
                    Some(slot) => {
                        delete_reminder(jobs, u_id, slot);
                    },
                    None => {},
                }
                FlowStatus::Done
            },
        }
    }
}

// ---------------------------------------------------------------------------
// One turn of the conversation
// ---------------------------------------------------------------------------

/// How one validated answer changes the stores and what it reports: a
/// command runs; otherwise the answer is written into the user's draft,
/// which advances to its next step and prompts, or — at a completing
/// answer — is finalized into the job store and deleted.
pub open spec fn process_rel(
    d0: Map<Seq<char>, DraftV>,
    j0: JobStoreV,
    u: Seq<char>,
    state: Option<DraftV>,
    i: UserInputV,
    d1: Map<Seq<char>, DraftV>,
    j1: JobStoreV,
    r: StatusV,
) -> bool {
    match i {
        UserInputV::Command(c) => command_rel(d0, j0, u, c, d1, j1, r),
        _ => match state {
            None => d1 == d0 && j1 == j0 && r == StatusV::Error {
                message: "I'm confused... let's just start over"@,
                desired_value: DesiredValue::Start,
            },
            Some(d) => if d.desired_value == DesiredValue::Finished {
                d1 == d0 && j1 == j0 && r == StatusV::Done
            } else if finalizes(d, i) {
                let dn = update_draft(d, i);
                &&& d1 == d0.remove(u)
                &&& (exists|y: int|
                    -262143 <= y <= 262142 && j1 == finalize_jobs(j0, u, dn, y))
                &&& r == StatusV::Done
            } else {
                let dn = advance(update_draft(d, i));
                &&& d1 == d0.insert(u, dn)
                &&& j1 == j0
                &&& r == flow_status_spec(dn)
            },
        },
    }
}

/// The inputs under which one step handler is ever invoked: exactly the
/// shapes and validated values its step's validation lets through.
pub open spec fn input_fits(state: Option<DraftV>, i: UserInputV) -> bool {
    match i {
        UserInputV::Command(c) => true,
        _ => match state {
            None => false,
            Some(d) => match d.desired_value {
                DesiredValue::Start => i matches UserInputV::Message(_) || i
                    matches UserInputV::Media(_),
                DesiredValue::Message => (i matches UserInputV::Message(t) && t.len() > 0) || i
                    matches UserInputV::Media(_),
                DesiredValue::Frequency => i matches UserInputV::Frequency(_),
                DesiredValue::StartMonth => i matches UserInputV::Message(t)
                    && month_number_of_name(t) >= 1,
                DesiredValue::StartDay => i matches UserInputV::Message(t) && valid_day_str(
                    t,
                    days_of_month_name(opt_or_empty(d.first_execution_month)),
                ),
                DesiredValue::StartTime => i matches UserInputV::Time(t) && valid_time(t),
                DesiredValue::Chat => i matches UserInputV::Message(t) && t.len() > 0 && t[0]
                    == '@',
                DesiredValue::HasToken => i matches UserInputV::YesNo(_),
                DesiredValue::Token => i matches UserInputV::Message(t) && t.len() > 0,
                DesiredValue::Finished => i matches UserInputV::Message(_) || i
                    matches UserInputV::Media(_),
            },
        },
    }
}

/// Validation only lets through inputs their step handler accepts.
proof fn lemma_load_ok_fits(state: Option<DraftV>, m: MessageV, i: UserInputV)
    requires
        load_input_spec(state, m) == Ok::<UserInputV, Seq<char>>(i),
    ensures
        input_fits(state, i),
{
}

/// Dispatches one validated answer: commands run globally; anything else
/// goes to the current step's handler, and the draft is advanced and
/// saved, or finalized.
fn process_incoming_message(
    u_id: &String,
    message: UserInput,
    state: &mut Option<ConfigInProgress>,
    drafts: &mut DraftStore,
    jobs: &mut JobStore,
) -> (r: FlowStatus)
    requires
        old(drafts).wf(),
        old(jobs).wf(),
        (match *old(state) {
            Some(c) => wf_draft(c@),
            None => true,
        }),
        input_fits(opt_draft_view(old(state)), message@),
    ensures
        final(drafts).wf(),
        final(jobs).wf(),
        process_rel(
            old(drafts)@,
            old(jobs)@,
            u_id@,
            opt_draft_view(old(state)),
            message@,
            final(drafts)@,
            final(jobs)@,
            r@,
        ),
{
    let ghost d0 = drafts@;
    let ghost im = message@;
    match message {
        UserInput::Command(com) => com.execute(u_id, drafts, jobs),
        _ => match state {
            Some(st) => {
                let ghost dv = st@;
                let closed: bool = match st.desired_value {
                    DesiredValue::Start => false,
                    DesiredValue::Message => process_desired_message(st, message),
                    DesiredValue::Frequency => process_frequency(st, message),
                    DesiredValue::StartDay => process_month_day(st, message),
                    DesiredValue::StartMonth => process_month(st, message),
                    DesiredValue::StartTime => process_time(st, message),
                    DesiredValue::Chat => process_chat(st, message),
                    DesiredValue::HasToken => process_has_token(st, message, u_id, drafts, jobs),
                    DesiredValue::Token => process_token(st, message, u_id, drafts, jobs),
                    DesiredValue::Finished => true,
                };
                if !closed {
                    proof {
                        assert(st@ == update_draft(dv, im));
                        assert(wf_draft(advance(st@)));
                    }
                    st.move_to_next_step();
                    save_state(drafts, u_id, st);
                    st.get_flow_status()
                } else {
                    FlowStatus::Done
                }
            },
            None => FlowStatus::Error {
                message: "I'm confused... let's just start over".to_owned(),
                desired_value: DesiredValue::Start,
            },
        },
    }
}

/// What one whole turn does, from the raw incoming payload: an invalid
/// answer changes nothing and reports the corrective message for the
/// user's current step; a valid one runs as a command or step answer.
pub open spec fn handle_rel(
    d0: Map<Seq<char>, DraftV>,
    j0: JobStoreV,
    u: Seq<char>,
    m: MessageV,
    d1: Map<Seq<char>, DraftV>,
    j1: JobStoreV,
    r: StatusV,
) -> bool {
    match load_input_spec(draft_of(d0, u), m) {
        Ok(i) => process_rel(d0, j0, u, draft_of(d0, u), i, d1, j1, r),
        Err(msg) => d1 == d0 && j1 == j0 && r == StatusV::Error {
            message: msg,
            desired_value: error_step_of(draft_of(d0, u)),
        },
    }
}

/// One turn of the conversation: loads the user's draft, validates the
/// payload against its current step, and advances, finalizes, rejects or
/// runs a command, returning what to show the user next.
pub fn accept_incoming_message(
    u_id: &String,
    message: &Message,
    drafts: &mut DraftStore,
    jobs: &mut JobStore,
) -> (r: FlowStatus)
    requires
        old(drafts).wf(),
        old(jobs).wf(),
    ensures
        final(drafts).wf(),
        final(jobs).wf(),
        handle_rel(
            old(drafts)@,
            old(jobs)@,
            u_id@,
            message@,
            final(drafts)@,
            final(jobs)@,
            r@,
        ),
{
    let mut state = get_state(drafts, u_id);
    let validate = load_input(&state, message);
    match validate {
        Ok(input) => {
            proof {
                lemma_load_ok_fits(opt_draft_view(&state), message@, input@);
            }
            process_incoming_message(u_id, input, &mut state, drafts, jobs)
        },
        Err(msg) => {
            let desired_value = match &state {
                Some(st) => st.desired_value,
                None => DesiredValue::Start,
            };
            FlowStatus::Error { message: msg, desired_value }
        },
    }
}

} // verus!
