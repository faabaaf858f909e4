//! The multi-step form the wizard walks a user through: the step tags, the
//! in-progress record, the branching successor rule, the per-step
//! validation rules, and the prompt shown at each step.

use vstd::prelude::*;

use crate::calendar::{
    day_grid, days_of_month_name, get_option_days, get_option_months, month_number_of_name,
    months_grid,
};
use crate::store::{Message, MessageV};
use crate::strutil::{all_digits, ci_eq, digit_val, digits_val, eq_ci, is_digit, no_char};

verus! {

/// The wizard's current question.
#[derive(Clone, Copy, PartialEq, Eq, Structural, Debug)]
pub enum DesiredValue {
    Start,
    Message,
    Frequency,
    StartMonth,
    StartDay,
    StartTime,
    Chat,
    HasToken,
    Token,
    Finished,
}

/// The recurrence kind a user picks at the frequency step.
#[derive(Clone, Copy, PartialEq, Eq, Structural, Debug)]
pub enum Schedule {
    Daily,
    Weekly,
    Biweekly,
    Monthly,
    Yearly,
}

/// A global command, recognized regardless of the current step.
pub enum Command {
    Start,
    Cancel,
    List,
    Delete(String),
}

pub ghost enum CommandV {
    Start,
    Cancel,
    List,
    Delete(Seq<char>),
}

impl View for Command {
    type V = CommandV;

    open spec fn view(&self) -> CommandV {
        match self {
            Command::Start => CommandV::Start,
            Command::Cancel => CommandV::Cancel,
            Command::List => CommandV::List,
            Command::Delete(s) => CommandV::Delete(s@),
        }
    }
}

/// A validated user answer, tagged by what it answers.
pub enum UserInput {
    Message(String),
    ChatLink(String),
    Frequency(Schedule),
    Time(String),
    Date(String),
    Media(Message),
    YesNo(bool),
    Delete(String),
    Command(Command),
}

pub ghost enum UserInputV {
    Message(Seq<char>),
    ChatLink(Seq<char>),
    Frequency(Schedule),
    Time(Seq<char>),
    Date(Seq<char>),
    Media(MessageV),
    YesNo(bool),
    Delete(Seq<char>),
    Command(CommandV),
}

impl View for UserInput {
    type V = UserInputV;

    open spec fn view(&self) -> UserInputV {
        match self {
            UserInput::Message(s) => UserInputV::Message(s@),
            UserInput::ChatLink(s) => UserInputV::ChatLink(s@),
            UserInput::Frequency(k) => UserInputV::Frequency(*k),
            UserInput::Time(s) => UserInputV::Time(s@),
            UserInput::Date(s) => UserInputV::Date(s@),
            UserInput::Media(m) => UserInputV::Media(m@),
            UserInput::YesNo(b) => UserInputV::YesNo(*b),
            UserInput::Delete(s) => UserInputV::Delete(s@),
            UserInput::Command(c) => UserInputV::Command(c@),
        }
    }
}

/// The input shape a prompt asks the transport to offer.
pub enum OptionType {
    Options(Vec<Vec<String>>),
    Media,
    Time,
    Date,
    YesNo,
    Plain,
}

pub ghost enum OptV {
    Options(Seq<Seq<Seq<char>>>),
    Media,
    Time,
    Date,
    YesNo,
    Plain,
}

impl View for OptionType {
    type V = OptV;

    open spec fn view(&self) -> OptV {
        match self {
            OptionType::Options(v) => OptV::Options(v.deep_view()),
            OptionType::Media => OptV::Media,
            OptionType::Time => OptV::Time,
            OptionType::Date => OptV::Date,
            OptionType::YesNo => OptV::YesNo,
            OptionType::Plain => OptV::Plain,
        }
    }
}

/// A prompt: the message to show and the input shape to offer.
pub struct Coorespondance {
    pub option_type: OptionType,
    pub message: String,
}

pub ghost struct CoorV {
    pub option_type: OptV,
    pub message: Seq<char>,
}

impl View for Coorespondance {
    type V = CoorV;

    open spec fn view(&self) -> CoorV {
        CoorV { option_type: self.option_type@, message: self.message@ }
    }
}

/// What the engine hands back to the transport after one turn.
pub enum FlowStatus {
    Done,
    DoneWithMessage(String),
    Step(Coorespondance),
    Error { message: String, desired_value: DesiredValue },
    Cancelled,
    Info(String),
    Media(Message),
}

pub ghost enum StatusV {
    Done,
    DoneWithMessage(Seq<char>),
    Step(CoorV),
    Error { message: Seq<char>, desired_value: DesiredValue },
    Cancelled,
    Info(Seq<char>),
    Media(MessageV),
}

impl View for FlowStatus {
    type V = StatusV;

    open spec fn view(&self) -> StatusV {
        match self {
            FlowStatus::Done => StatusV::Done,
            FlowStatus::DoneWithMessage(s) => StatusV::DoneWithMessage(s@),
            FlowStatus::Step(c) => StatusV::Step(c@),
            FlowStatus::Error { message, desired_value } => StatusV::Error {
                message: message@,
                desired_value: *desired_value,
            },
            FlowStatus::Cancelled => StatusV::Cancelled,
            FlowStatus::Info(s) => StatusV::Info(s@),
            FlowStatus::Media(m) => StatusV::Media(m@),
        }
    }
}

// ---------------------------------------------------------------------------
// The in-progress record
// ---------------------------------------------------------------------------

/// One user's wizard record: the current step plus every answer collected
/// so far.
pub struct ConfigInProgress {
    pub schedule: Option<Schedule>,
    pub desired_value: DesiredValue,
    pub first_execution_month: Option<String>,
    pub first_execution_day: Option<String>,
    pub first_execution_time: Option<String>,
    pub chat_id: Option<String>,
    pub message: Option<Message>,
    pub has_token: Option<bool>,
    pub token: Option<String>,
}

pub ghost struct DraftV {
    pub schedule: Option<Schedule>,
    pub desired_value: DesiredValue,
    pub first_execution_month: Option<Seq<char>>,
    pub first_execution_day: Option<Seq<char>>,
    pub first_execution_time: Option<Seq<char>>,
    pub chat_id: Option<Seq<char>>,
    pub message: Option<MessageV>,
    pub has_token: Option<bool>,
    pub token: Option<Seq<char>>,
}

pub open spec fn view_opt_string(o: Option<String>) -> Option<Seq<char>> {
    match o {
        Some(s) => Some(s@),
        None => None,
    }
}

impl View for ConfigInProgress {
    type V = DraftV;

    open spec fn view(&self) -> DraftV {
        DraftV {
            schedule: self.schedule,
            desired_value: self.desired_value,
            first_execution_month: view_opt_string(self.first_execution_month),
            first_execution_day: view_opt_string(self.first_execution_day),
            first_execution_time: view_opt_string(self.first_execution_time),
            chat_id: view_opt_string(self.chat_id),
            message: match &self.message {
                Some(m) => Some(m@),
                None => None,
            },
            has_token: self.has_token,
            token: view_opt_string(self.token),
        }
    }
}

impl Clone for ConfigInProgress {
    fn clone(&self) -> (r: Self)
        ensures
            r@ == self@,
    {
        ConfigInProgress {
            schedule: self.schedule,
            desired_value: self.desired_value,
            first_execution_month: crate::strutil::clone_opt_string(&self.first_execution_month),
            first_execution_day: crate::strutil::clone_opt_string(&self.first_execution_day),
            first_execution_time: crate::strutil::clone_opt_string(&self.first_execution_time),
            chat_id: crate::strutil::clone_opt_string(&self.chat_id),
            message: match &self.message {
                Some(m) => Some(m.clone()),
                None => None,
            },
            has_token: self.has_token,
            token: crate::strutil::clone_opt_string(&self.token),
        }
    }
}

/// The record a fresh `/start` creates: at the message step, nothing
/// answered yet.
pub open spec fn fresh_draft() -> DraftV {
    DraftV {
        schedule: None,
        desired_value: DesiredValue::Message,
        first_execution_month: None,
        first_execution_day: None,
        first_execution_time: None,
        chat_id: None,
        message: None,
        has_token: None,
        token: None,
    }
}

// ---------------------------------------------------------------------------
// Steps: order and branching
// ---------------------------------------------------------------------------

/// The position of each step in the wizard's forward order.
pub open spec fn step_rank(s: DesiredValue) -> int {
    match s {
        DesiredValue::Start => 0,
        DesiredValue::Message => 1,
        DesiredValue::Frequency => 2,
        DesiredValue::StartMonth => 3,
        DesiredValue::StartDay => 4,
        DesiredValue::StartTime => 5,
        DesiredValue::Chat => 6,
        DesiredValue::HasToken => 7,
        DesiredValue::Token => 8,
        DesiredValue::Finished => 9,
    }
}

/// The next step after the current one, branching on the answers given so
/// far: a daily schedule skips the month and day steps, and declining a
/// custom credential skips the token step.
pub open spec fn next_step(d: DraftV) -> DesiredValue {
    match d.desired_value {
        DesiredValue::Start => DesiredValue::Message,
        DesiredValue::Message => DesiredValue::Frequency,
        DesiredValue::Frequency => if d.schedule == Some(Schedule::Daily) {
            DesiredValue::StartTime
        } else {
            DesiredValue::StartMonth
        },
        DesiredValue::StartMonth => DesiredValue::StartDay,
        DesiredValue::StartDay => DesiredValue::StartTime,
        DesiredValue::StartTime => DesiredValue::Chat,
        DesiredValue::Chat => DesiredValue::HasToken,
        DesiredValue::HasToken => if d.has_token == Some(true) {
            DesiredValue::Token
        } else {
            DesiredValue::Finished
        },
        DesiredValue::Token => DesiredValue::Finished,
        DesiredValue::Finished => DesiredValue::Finished,
    }
}

/// The same record, moved to its next step.
pub open spec fn advance(d: DraftV) -> DraftV {
    DraftV { desired_value: next_step(d), ..d }
}

pub open spec fn opt_or_empty(o: Option<Seq<char>>) -> Seq<char> {
    match o {
        Some(s) => s,
        None => Seq::empty(),
    }
}

/// A stored record is consistent with its step: every answer that earlier
/// steps collected is present and valid.
pub open spec fn wf_draft(d: DraftV) -> bool {
    let r = step_rank(d.desired_value);
    &&& 1 <= r <= 8
    &&& (r > 1 ==> d.message is Some)
    &&& (r > 2 ==> d.schedule is Some)
    &&& (r > 3 && d.schedule != Some(Schedule::Daily) ==> d.first_execution_month is Some
        && month_number_of_name(opt_or_empty(d.first_execution_month)) >= 1)
    &&& (r > 4 && d.schedule != Some(Schedule::Daily) ==> d.first_execution_day is Some
        && valid_day_str(
        opt_or_empty(d.first_execution_day),
        days_of_month_name(opt_or_empty(d.first_execution_month)),
    ))
    &&& (r > 5 ==> d.first_execution_time is Some && valid_time(
        opt_or_empty(d.first_execution_time),
    ))
    &&& (r > 6 ==> d.chat_id is Some)
    &&& (r > 7 ==> d.has_token == Some(true))
}

// ---------------------------------------------------------------------------
// Validation rules
// ---------------------------------------------------------------------------

/// The recurrence kind a frequency answer names, matched without regard
/// to ASCII case.
pub open spec fn freq_of(s: Seq<char>) -> Option<Schedule> {
    if ci_eq(s, "daily"@) {
        Some(Schedule::Daily)
    } else if ci_eq(s, "weekly"@) {
        Some(Schedule::Weekly)
    } else if ci_eq(s, "biweekly"@) {
        Some(Schedule::Biweekly)
    } else if ci_eq(s, "monthly"@) {
        Some(Schedule::Monthly)
    } else if ci_eq(s, "yearly"@) {
        Some(Schedule::Yearly)
    } else {
        None
    }
}

/// A strict 24-hour HH:MM time: exactly five characters, two digit pairs
/// around a colon, hour at most 23, minute at most 59.
pub open spec fn valid_time(s: Seq<char>) -> bool {
    &&& s.len() == 5
    &&& is_digit(s[0])
    &&& is_digit(s[1])
    &&& s[2] == ':'
    &&& is_digit(s[3])
    &&& is_digit(s[4])
    &&& digit_val(s[0]) * 10 + digit_val(s[1]) <= 23
    &&& digit_val(s[3]) * 10 + digit_val(s[4]) <= 59
}

/// A valid time string contains no path separator, so it is safe inside a
/// canonical storage path.
pub proof fn lemma_valid_time_no_slash(s: Seq<char>)
    requires
        valid_time(s),
    ensures
        no_char(s, '/'),
{
    assert forall|i: int| 0 <= i < s.len() implies s[i] != '/' by {
        if i == 0 {
        } else if i == 1 {
        } else if i == 2 {
        } else if i == 3 {
        } else {
            assert(i == 4);
        }
    }
}

/// The day answer without an optional leading plus sign.
pub open spec fn strip_plus(s: Seq<char>) -> Seq<char> {
    if s.len() > 0 && s[0] == '+' {
        s.drop_first()
    } else {
        s
    }
}

/// A day answer: an integer (optionally signed with '+', possibly with
/// leading zeros) between 1 and the number of days in the chosen month.
pub open spec fn valid_day_str(s: Seq<char>, days: int) -> bool {
    let t = strip_plus(s);
    t.len() > 0 && all_digits(t) && 1 <= digits_val(t) <= days
}

/// The numeric value of a valid day answer.
pub open spec fn day_val_of(s: Seq<char>) -> int {
    digits_val(strip_plus(s))
}

/// Whether an answer affirms the custom-credential question: only a
/// case-insensitive "yes" does; any other input, media included, declines.
pub open spec fn is_yes(m: MessageV) -> bool {
    match m {
        MessageV::Message(t) => ci_eq(t, "yes"@),
        _ => false,
    }
}

// ---------------------------------------------------------------------------
// Prompts
// ---------------------------------------------------------------------------

/// The frequency choices offered as one row of buttons.
pub open spec fn freq_grid() -> Seq<Seq<Seq<char>>> {
    seq![seq!["Daily"@, "Weekly"@, "Biweekly"@, "Monthly"@, "Yearly"@]]
}

/// The prompt shown for the record's current step.
pub open spec fn prompt_spec(d: DraftV) -> CoorV {
    match d.desired_value {
        DesiredValue::Start => CoorV {
            option_type: OptV::Plain,
            message: "This is a dummy. Don't send this to people."@,
        },
        DesiredValue::Message => CoorV {
            option_type: OptV::Media,
            message: "Send the message or media you'd like sent."@,
        },
        DesiredValue::Frequency => CoorV {
            option_type: OptV::Options(freq_grid()),
            message: "How often would you like this sent?"@,
        },
        DesiredValue::StartMonth => CoorV {
            option_type: OptV::Options(months_grid()),
            message: "Please select your scheduled month."@,
        },
        DesiredValue::StartDay => CoorV {
            option_type: OptV::Options(
                day_grid(days_of_month_name(opt_or_empty(d.first_execution_month))),
            ),
            message: "Please select a day of month"@,
        },
        DesiredValue::StartTime => CoorV {
            option_type: OptV::Time,
            message: "What time should the first message be sent?"@,
        },
        DesiredValue::Chat => CoorV {
            option_type: OptV::Media,
            message: "Please \"mention\" the chat or channel where you would like the data posted."@,
        },
        DesiredValue::HasToken => CoorV {
            option_type: OptV::YesNo,
            message: "Would you like this sent by your own custom bot?"@,
        },
        DesiredValue::Token => CoorV {
            option_type: OptV::Media,
            message: "Please provide the bot token."@,
        },
        DesiredValue::Finished => CoorV {
            option_type: OptV::Plain,
            message: "Your message is scheduled. Thank you!"@,
        },
    }
}

/// What one turn shows for a record at its current step: terminal tags
/// report completion, every live step re-issues its prompt.
pub open spec fn flow_status_spec(d: DraftV) -> StatusV {
    match d.desired_value {
        DesiredValue::Start => StatusV::Done,
        DesiredValue::Finished => StatusV::Done,
        _ => StatusV::Step(prompt_spec(d)),
    }
}

impl ConfigInProgress {
    /// Moves the record to its next step, branching on the answers given
    /// so far.
    pub fn move_to_next_step(&mut self)
        requires
            old(self).desired_value == DesiredValue::Frequency ==> old(self).schedule is Some,
            old(self).desired_value == DesiredValue::HasToken ==> old(self).has_token is Some,
        ensures
            final(self)@ == advance(old(self)@),
    {
        self.desired_value = match self.desired_value {
            DesiredValue::Start => DesiredValue::Message,
            DesiredValue::Message => DesiredValue::Frequency,
            DesiredValue::Frequency => match self.schedule {
                Some(Schedule::Daily) => DesiredValue::StartTime,
                _ => DesiredValue::StartMonth,
            },
            DesiredValue::StartMonth => DesiredValue::StartDay,
            DesiredValue::StartDay => DesiredValue::StartTime,
            DesiredValue::StartTime => DesiredValue::Chat,
            DesiredValue::Chat => DesiredValue::HasToken,
            DesiredValue::HasToken => {
                if self.has_token == Some(true) {
                    DesiredValue::Token
                } else {
                    DesiredValue::Finished
                }
            },
            DesiredValue::Token => DesiredValue::Finished,
            DesiredValue::Finished => DesiredValue::Finished,
        }
    }

    /// The status one turn reports for this record: its step's prompt, or
    /// completion at a terminal tag.
    pub fn get_flow_status(&self) -> (r: FlowStatus)
        ensures
            r@ == flow_status_spec(self@),
    {
        match self.desired_value {
            DesiredValue::Start => FlowStatus::Done,
            DesiredValue::Finished => FlowStatus::Done,
            _ => FlowStatus::Step(self.get_message()),
        }
    }

    /// The prompt for the record's current step.
    fn get_message(&self) -> (r: Coorespondance)
        ensures
            r@ == prompt_spec(self@),
    {
        match self.desired_value {
            DesiredValue::Start => Coorespondance {
                option_type: OptionType::Plain,
                message: "This is a dummy. Don't send this to people.".to_owned(),
            },
            DesiredValue::Message => Coorespondance {
                message: "Send the message or media you'd like sent.".to_owned(),
                option_type: OptionType::Media,
            },
            DesiredValue::Frequency => {
                let options = vec![vec![
                    "Daily".to_owned(),
                    "Weekly".to_owned(),
                    "Biweekly".to_owned(),
                    "Monthly".to_owned(),
                    "Yearly".to_owned(),
                ]];
                proof {
                    assert(options.deep_view() =~~= freq_grid());
                }
                Coorespondance {
                    message: "How often would you like this sent?".to_owned(),
                    option_type: OptionType::Options(options),
                }
            },
            DesiredValue::StartMonth => Coorespondance {
                message: "Please select your scheduled month.".to_owned(),
                option_type: OptionType::Options(get_option_months()),
            },
            DesiredValue::StartDay => {
                let options = match &self.first_execution_month {
                    Some(m) => get_option_days(m),
                    None => get_option_days(&String::new()),
                };
                Coorespondance {
                    option_type: OptionType::Options(options),
                    message: "Please select a day of month".to_owned(),
                }
            },
            DesiredValue::StartTime => Coorespondance {
                message: "What time should the first message be sent?".to_owned(),
                option_type: OptionType::Time,
            },
            DesiredValue::Chat => Coorespondance {
                message: "Please \"mention\" the chat or channel where you would like the data posted."
                    .to_owned(),
                option_type: OptionType::Media,
            },
            DesiredValue::HasToken => Coorespondance {
                message: "Would you like this sent by your own custom bot?".to_owned(),
                option_type: OptionType::YesNo,
            },
            DesiredValue::Token => Coorespondance {
                message: "Please provide the bot token.".to_owned(),
                option_type: OptionType::Media,
            },
            DesiredValue::Finished => Coorespondance {
                option_type: OptionType::Plain,
                message: "Your message is scheduled. Thank you!".to_owned(),
            },
        }
    }
}

impl UserInput {
    /// Reads a frequency answer, matched without regard to ASCII case.
    pub fn parse_frequency(frequency: &String) -> (r: Result<UserInput, ()>)
        ensures
            (match r {
                Ok(u) => freq_of(frequency@) is Some && u@ == UserInputV::Frequency(
                    freq_of(frequency@)->0,
                ),
                Err(e) => freq_of(frequency@) is None,
            }),
    {
        let s = frequency.as_str();
        if eq_ci(s, "daily") {
            Ok(UserInput::Frequency(Schedule::Daily))
        } else if eq_ci(s, "weekly") {
            Ok(UserInput::Frequency(Schedule::Weekly))
        } else if eq_ci(s, "biweekly") {
            Ok(UserInput::Frequency(Schedule::Biweekly))
        } else if eq_ci(s, "monthly") {
            Ok(UserInput::Frequency(Schedule::Monthly))
        } else if eq_ci(s, "yearly") {
            Ok(UserInput::Frequency(Schedule::Yearly))
        } else {
            Err(())
        }
    }
}

// ---------------------------------------------------------------------------
// Exec validation helpers
// ---------------------------------------------------------------------------

/// Checks an answer against the strict 24-hour HH:MM pattern.
pub fn check_time(s: &str) -> (r: bool)
    ensures
        r == valid_time(s@),
{
    if s.unicode_len() != 5 {
        return false;
    }
    let c0 = s.get_char(0) as u32;
    let c1 = s.get_char(1) as u32;
    let c2 = s.get_char(2);
    let c3 = s.get_char(3) as u32;
    let c4 = s.get_char(4) as u32;
    if !(48 <= c0 && c0 <= 57 && 48 <= c1 && c1 <= 57 && 48 <= c3 && c3 <= 57 && 48 <= c4 && c4
        <= 57) {
        return false;
    }
    if c2 != ':' {
        return false;
    }
    let hour = (c0 - 48) * 10 + (c1 - 48);
    let minute = (c3 - 48) * 10 + (c4 - 48);
    hour <= 23 && minute <= 59
}

/// Checks a day answer against the chosen month's day count.
pub fn check_day(s: &str, days: i32) -> (r: bool)
    requires
        0 <= days <= 31,
    ensures
        r == valid_day_str(s@, days as int),
{
    let len = s.unicode_len();
    let t: &str = if len > 0 && s.get_char(0) == '+' {
        s.substring_char(1, len)
    } else {
        s
    };
    proof {
        assert(t@ =~= strip_plus(s@));
    }
    match crate::strutil::parse_u32_bounded(t, days as u32) {
        Some(v) => v >= 1,
        None => false,
    }
}

} // verus!
