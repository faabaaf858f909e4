//! A conversation-driven wizard that collects the parameters of a recurring
//! reminder over several chat turns, together with a recurrence-keyed store
//! for finished reminders: per-user drafts, step validation and branching,
//! and a canonical-path-plus-slot-index persistence model.

pub mod assoc;
pub mod calendar;
mod dates;
pub mod drafts;
pub mod engine;
pub mod laws;
pub mod recurrence;
pub mod store;
pub mod strutil;
pub mod telegram;
pub mod wizard;

pub use calendar::{
    get_days_by_month, get_month_from_int, get_month_number, get_option_days, get_option_months,
    get_weekday_display, month_number_str, string_from_month, weekday_from_name,
    weekday_from_number, Month, Weekday,
};
pub use drafts::{delete_state, get_state, save_state, DraftStore};
pub use engine::accept_incoming_message;
pub use store::{
    create_schedule, delete_reminder, delete_scheduled, get_config, list_user_reminders, Config,
    JobStore, Message,
};
pub use strutil::{str_eq, u32_to_string};
pub use telegram::{get_string_from_query, CallbackQuery, Update, Values};
pub use wizard::{
    check_day, check_time, Command, ConfigInProgress, Coorespondance, DesiredValue, FlowStatus,
    OptionType, Schedule, UserInput,
};
