//! Canonical path encoding, decoding, and the two-layer store.

use chatterbox::recurrence::Schedule;
use chatterbox::{
    create_schedule, delete_reminder, delete_scheduled, get_config, list_user_reminders, Config,
    JobStore, Message, Month, Weekday,
};

#[test]
fn test_daily() {
    let schedule: Schedule = Schedule::Daily {
        time: "12:02".to_owned(),
    };
    let res = schedule.get_file_location(&"test".to_owned());

    assert_eq!(res, "/mnt/data/recurring/daily/12:02/test")
}

#[test]
fn test_weekly() {
    let schedule: Schedule = Schedule::Weekly {
        weekday: Weekday::Mon,
        time: "3:02".to_owned(),
    };
    let res = schedule.get_file_location(&"test2".to_owned());

    assert_eq!(res, "/mnt/data/recurring/weekly/monday/3:02/test2")
}

#[test]
fn test_monthly() {
    let schedule: Schedule = Schedule::Monthly {
        day: 3,
        time: "10:56".to_owned(),
    };
    let res = schedule.get_file_location(&"alan".to_owned());

    assert_eq!(res, "/mnt/data/recurring/monthly/3/10:56/alan")
}

#[test]
fn test_biweekly() {
    let schedule: Schedule = Schedule::BiWeekly {
        weekday: Weekday::Tue,
        time: "00:00".to_owned(),
        odd: true,
    };
    let res = schedule.get_file_location(&"bob".to_owned());

    assert_eq!("/mnt/data/recurring/biweekly/1/tuesday/00:00/bob", res)
}

#[test]
fn test_yearly() {
    let schedule: Schedule = Schedule::Yearly {
        day: 25,
        time: "10:00".to_owned(),
        month: Month::December,
    };
    let res: String = schedule.get_file_location(&"santa".to_owned());

    assert_eq!("/mnt/data/recurring/yearly/12/25/10:00/santa", res)
}

fn text_of(m: &Message) -> &str {
    match m {
        Message::Message(t) => t.as_str(),
        _ => panic!("expected a text payload"),
    }
}

#[test]
fn decode_inverts_encode() {
    let user = "u42".to_owned();
    let schedule = Schedule::Yearly {
        day: 7,
        time: "23:59".to_owned(),
        month: Month::April,
    };
    let path = schedule.get_file_location(&user);
    let (decoded, decoded_user) =
        chatterbox::recurrence::decode_file_location(path.as_str()).expect("path must decode");
    assert_eq!(decoded_user, "u42");
    match decoded {
        Schedule::Yearly { day, time, month } => {
            assert_eq!(day, 7);
            assert_eq!(time, "23:59");
            assert!(matches!(month, Month::April));
        }
        _ => panic!("decoded wrong kind"),
    }

    let weekly = Schedule::BiWeekly {
        weekday: Weekday::Fri,
        time: "06:30".to_owned(),
        odd: false,
    };
    let path = weekly.get_file_location(&"x".to_owned());
    assert_eq!(path, "/mnt/data/recurring/biweekly/0/friday/06:30/x");
    let (decoded, _) =
        chatterbox::recurrence::decode_file_location(path.as_str()).expect("path must decode");
    match decoded {
        Schedule::BiWeekly { weekday, time, odd } => {
            assert!(matches!(weekday, Weekday::Fri));
            assert_eq!(time, "06:30");
            assert!(!odd);
        }
        _ => panic!("decoded wrong kind"),
    }

    assert!(chatterbox::recurrence::decode_file_location("/mnt/data/recurring/hourly/1/x").is_none());
    assert!(chatterbox::recurrence::decode_file_location("/elsewhere/daily/1/x").is_none());
}

#[test]
fn round_trip_create_get_delete() {
    let mut jobs = JobStore::new();
    let user = "123user".to_owned();
    let schedule = Schedule::Weekly {
        weekday: Weekday::Mon,
        time: "09:00".to_owned(),
    };
    let config = Config {
        chat_id: "123".to_owned(),
        message: Message::Message("hi".to_owned()),
    };
    assert!(create_schedule(&mut jobs, &user, config, schedule));

    let got = get_config(&jobs, &user, 1).expect("created reminder must be retrievable");
    assert_eq!(got.chat_id, "123");
    assert_eq!(text_of(&got.message), "hi");

    delete_scheduled(&mut jobs, &user, 1);
    assert!(get_config(&jobs, &user, 1).is_err());
}

#[test]
fn slots_fill_smallest_gap() {
    let mut jobs = JobStore::new();
    let user = "gapuser".to_owned();
    for (i, time) in ["01:00", "02:00", "03:00"].iter().enumerate() {
        let schedule = Schedule::Daily {
            time: (*time).to_owned(),
        };
        let config = Config {
            chat_id: format!("chat{}", i + 1),
            message: Message::Message(format!("m{}", i + 1)),
        };
        assert!(create_schedule(&mut jobs, &user, config, schedule));
    }
    assert_eq!(get_config(&jobs, &user, 1).unwrap().chat_id, "chat1");
    assert_eq!(get_config(&jobs, &user, 2).unwrap().chat_id, "chat2");
    assert_eq!(get_config(&jobs, &user, 3).unwrap().chat_id, "chat3");
    assert!(get_config(&jobs, &user, 4).is_err());

    delete_scheduled(&mut jobs, &user, 2);
    assert!(get_config(&jobs, &user, 2).is_err());

    let schedule = Schedule::Daily {
        time: "04:00".to_owned(),
    };
    let config = Config {
        chat_id: "chat4".to_owned(),
        message: Message::Message("m4".to_owned()),
    };
    assert!(create_schedule(&mut jobs, &user, config, schedule));
    // The freed slot 2 is reused, not a new slot 4.
    assert_eq!(get_config(&jobs, &user, 2).unwrap().chat_id, "chat4");
    assert!(get_config(&jobs, &user, 4).is_err());
}

#[test]
fn delete_slot_spares_shared_body() {
    let mut jobs = JobStore::new();
    let user = "shared".to_owned();
    // Two creates with the same schedule share one canonical path.
    for chat in ["a", "b"] {
        let schedule = Schedule::Daily {
            time: "09:00".to_owned(),
        };
        let config = Config {
            chat_id: chat.to_owned(),
            message: Message::Message("hello".to_owned()),
        };
        assert!(create_schedule(&mut jobs, &user, config, schedule));
    }
    delete_reminder(&mut jobs, &user, 1);
    // Slot 2 still points at the shared body, which must survive.
    assert_eq!(get_config(&jobs, &user, 2).unwrap().chat_id, "b");
    delete_reminder(&mut jobs, &user, 2);
    assert!(get_config(&jobs, &user, 2).is_err());
}

#[test]
fn list_renders_fixed_kinds_exactly() {
    let mut jobs = JobStore::new();
    let user = "lister".to_owned();
    let monthly = Schedule::Monthly {
        day: 28,
        time: "12:00".to_owned(),
    };
    let yearly = Schedule::Yearly {
        day: 5,
        time: "07:15".to_owned(),
        month: Month::March,
    };
    let c1 = Config {
        chat_id: "c".to_owned(),
        message: Message::Message("x".to_owned()),
    };
    let c2 = Config {
        chat_id: "c".to_owned(),
        message: Message::Message("y".to_owned()),
    };
    assert!(create_schedule(&mut jobs, &user, c1, monthly));
    assert!(create_schedule(&mut jobs, &user, c2, yearly));
    let listing = list_user_reminders(&jobs, &user);
    assert_eq!(
        listing,
        "1: Sent monthly on day 28 at 12:00\n2: Sent yearly on March on day 5 at 07:15\n"
    );
    assert_eq!(list_user_reminders(&jobs, &"nobody".to_owned()), "");
}
