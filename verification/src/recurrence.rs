//! The recurrence definition and its canonical storage path: a reversible
//! mapping between a schedule (kind plus parameters) and the path the job
//! body is stored at.

use vstd::prelude::*;

use crate::calendar::{
    get_weekday_display, lemma_weekday_name_roundtrip, month_num, month_of_num,
    weekday_from_name, weekday_name, weekday_of_name, Month, Weekday,
};
use crate::strutil::{
    all_digits, dec_digits, digits_val, find_char, first_occur, is_digit, lemma_dec_digits_val,
    lemma_first_occur, lemma_first_occur_from_facts, no_char, parse_u32_bounded, str_eq,
    u32_to_string,
};

verus! {

/// How often a reminder repeats, with the parameters of its first
/// execution.
pub enum Schedule {
    Daily { time: String },
    Weekly { weekday: Weekday, time: String },
    BiWeekly { weekday: Weekday, time: String, odd: bool },
    Monthly { day: u32, time: String },
    Yearly { day: u32, time: String, month: Month },
}

pub ghost enum ScheduleV {
    Daily { time: Seq<char> },
    Weekly { weekday: Weekday, time: Seq<char> },
    BiWeekly { weekday: Weekday, time: Seq<char>, odd: bool },
    Monthly { day: u32, time: Seq<char> },
    Yearly { day: u32, time: Seq<char>, month: Month },
}

impl View for Schedule {
    type V = ScheduleV;

    open spec fn view(&self) -> ScheduleV {
        match self {
            Schedule::Daily { time } => ScheduleV::Daily { time: time@ },
            Schedule::Weekly { weekday, time } => ScheduleV::Weekly {
                weekday: *weekday,
                time: time@,
            },
            Schedule::BiWeekly { weekday, time, odd } => ScheduleV::BiWeekly {
                weekday: *weekday,
                time: time@,
                odd: *odd,
            },
            Schedule::Monthly { day, time } => ScheduleV::Monthly { day: *day, time: time@ },
            Schedule::Yearly { day, time, month } => ScheduleV::Yearly {
                day: *day,
                time: time@,
                month: *month,
            },
        }
    }
}

/// The time strings of a schedule contain no path separator, so that the
/// canonical path can be split back into its segments.
pub open spec fn wf_schedule(s: ScheduleV) -> bool {
    match s {
        ScheduleV::Daily { time } => no_char(time, '/'),
        ScheduleV::Weekly { weekday, time } => no_char(time, '/'),
        ScheduleV::BiWeekly { weekday, time, odd } => no_char(time, '/'),
        ScheduleV::Monthly { day, time } => no_char(time, '/'),
        ScheduleV::Yearly { day, time, month } => no_char(time, '/'),
    }
}

// ---------------------------------------------------------------------------
// Joining and splitting path segments
// ---------------------------------------------------------------------------

pub open spec fn recurring_prefix() -> Seq<char> {
    "/mnt/data/recurring/"@
}

/// The path segments, in storage order, of a schedule for one user.
pub open spec fn segments_of(s: ScheduleV, u: Seq<char>) -> Seq<Seq<char>> {
    match s {
        ScheduleV::Daily { time } => seq!["daily"@, time, u],
        ScheduleV::Weekly { weekday, time } => seq!["weekly"@, weekday_name(weekday), time, u],
        ScheduleV::BiWeekly { weekday, time, odd } => seq![
            "biweekly"@,
            if odd { "1"@ } else { "0"@ },
            weekday_name(weekday),
            time,
            u,
        ],
        ScheduleV::Monthly { day, time } => seq![
            "monthly"@,
            dec_digits(day as nat),
            time,
            u,
        ],
        ScheduleV::Yearly { day, time, month } => seq![
            "yearly"@,
            dec_digits(month_num(month) as nat),
            dec_digits(day as nat),
            time,
            u,
        ],
    }
}

pub open spec fn join_seq(segs: Seq<Seq<char>>) -> Seq<char>
    decreases segs.len(),
{
    if segs.len() == 0 {
        Seq::empty()
    } else if segs.len() == 1 {
        segs[0]
    } else {
        segs[0] + seq!['/'] + join_seq(segs.drop_first())
    }
}

pub open spec fn split_seq(s: Seq<char>) -> Seq<Seq<char>>
    decreases s.len(),
{
    let i = first_occur(s, '/');
    if 0 <= i < s.len() {
        seq![s.take(i)] + split_seq(s.skip(i + 1))
    } else {
        seq![s]
    }
}

proof fn lemma_split_noslash(s: Seq<char>)
    requires
        no_char(s, '/'),
    ensures
        split_seq(s) == seq![s],
{
    lemma_first_occur(s, '/');
    if 0 <= first_occur(s, '/') < s.len() {
        assert(s[first_occur(s, '/')] == '/');
    }
}

proof fn lemma_split_concat(a: Seq<char>, b: Seq<char>)
    requires
        no_char(a, '/'),
    ensures
        split_seq(a + seq!['/'] + b) == seq![a] + split_seq(b),
{
    let s = a + seq!['/'] + b;
    assert(s[a.len() as int] == '/');
    assert(forall|j: int| 0 <= j < a.len() ==> s[j] == a[j] && s[j] != '/');
    lemma_first_occur_from_facts(s, '/', a.len() as int);
    assert(s.take(a.len() as int) =~= a);
    assert(s.skip(a.len() as int + 1) =~= b);
}

proof fn lemma_split_join(segs: Seq<Seq<char>>)
    requires
        segs.len() >= 1,
        forall|i: int| 0 <= i < segs.len() ==> no_char(#[trigger] segs[i], '/'),
    ensures
        split_seq(join_seq(segs)) == segs,
    decreases segs.len(),
{
    if segs.len() == 1 {
        lemma_split_noslash(segs[0]);
        assert(split_seq(join_seq(segs)) =~= segs);
    } else {
        let rest = segs.drop_first();
        assert(forall|i: int| 0 <= i < rest.len() ==> rest[i] == segs[i + 1]);
        lemma_split_join(rest);
        lemma_split_concat(segs[0], join_seq(rest));
        assert(seq![segs[0]] + split_seq(join_seq(rest)) =~= segs);
    }
}

// ---------------------------------------------------------------------------
// Encoding
// ---------------------------------------------------------------------------

/// The canonical storage path of a schedule for one user.
pub open spec fn encode_spec(s: ScheduleV, u: Seq<char>) -> Seq<char> {
    recurring_prefix() + join_seq(segments_of(s, u))
}

impl Schedule {
    /// Builds the canonical storage path for this schedule and user.
    #[verifier::rlimit(50)]
    pub fn get_file_location(self, u_id: &String) -> (r: String)
        ensures
            r@ == encode_spec(self@, u_id@),
    {
        proof {
            reveal_strlit("/");
        }
        let mut r = "/mnt/data/recurring/".to_owned();
        match self {
            Schedule::Daily { time } => {
                r.append("daily");
                r.append("/");
                r.append(time.as_str());
                r.append("/");
                r.append(u_id.as_str());
                proof {
                    reveal_with_fuel(join_seq, 6);
                    assert(r@ =~= encode_spec(self@, u_id@));
                }
            },
            Schedule::Weekly { weekday, time } => {
                r.append("weekly");
                r.append("/");
                r.append(get_weekday_display(weekday).as_str());
                r.append("/");
                r.append(time.as_str());
                r.append("/");
                r.append(u_id.as_str());
                proof {
                    reveal_with_fuel(join_seq, 6);
                    assert(r@ =~= encode_spec(self@, u_id@));
                }
            },
            Schedule::BiWeekly { weekday, time, odd } => {
                r.append("biweekly");
                r.append("/");
                r.append(if odd { "1" } else { "0" });
                r.append("/");
                r.append(get_weekday_display(weekday).as_str());
                r.append("/");
                r.append(time.as_str());
                r.append("/");
                r.append(u_id.as_str());
                proof {
                    reveal_with_fuel(join_seq, 6);
                    assert(r@ =~= encode_spec(self@, u_id@));
                }
            },
            Schedule::Monthly { day, time } => {
                r.append("monthly");
                r.append("/");
                r.append(u32_to_string(day).as_str());
                r.append("/");
                r.append(time.as_str());
                r.append("/");
                r.append(u_id.as_str());
                proof {
                    reveal_with_fuel(join_seq, 6);
                    assert(r@ =~= encode_spec(self@, u_id@));
                }
            },
            Schedule::Yearly { day, time, month } => {
                r.append("yearly");
                r.append("/");
                let m = match month {
                    Month::January => 1u32,
                    Month::February => 2,
                    Month::March => 3,
                    Month::April => 4,
                    Month::May => 5,
                    Month::June => 6,
                    Month::July => 7,
                    Month::August => 8,
                    Month::September => 9,
                    Month::October => 10,
                    Month::November => 11,
                    Month::December => 12,
                };
                r.append(u32_to_string(m).as_str());
                r.append("/");
                r.append(u32_to_string(day).as_str());
                r.append("/");
                r.append(time.as_str());
                r.append("/");
                r.append(u_id.as_str());
                proof {
                    reveal_with_fuel(join_seq, 6);
                    assert(r@ =~= encode_spec(self@, u_id@));
                }
            },
        }
        r
    }
}

/// Any string of at most nine characters, none of which is '/', is free of
/// path separators; lets the short fixed path keywords be checked one
/// character at a time.
proof fn lemma_no_slash_short(s: Seq<char>)
    requires
        s.len() <= 9,
        s.len() > 0 ==> s[0] != '/',
        s.len() > 1 ==> s[1] != '/',
        s.len() > 2 ==> s[2] != '/',
        s.len() > 3 ==> s[3] != '/',
        s.len() > 4 ==> s[4] != '/',
        s.len() > 5 ==> s[5] != '/',
        s.len() > 6 ==> s[6] != '/',
        s.len() > 7 ==> s[7] != '/',
        s.len() > 8 ==> s[8] != '/',
    ensures
        no_char(s, '/'),
{
    assert forall|i: int| 0 <= i < s.len() implies s[i] != '/' by {
        if i == 0 {
        } else if i == 1 {
        } else if i == 2 {
        } else if i == 3 {
        } else if i == 4 {
        } else if i == 5 {
        } else if i == 6 {
        } else if i == 7 {
        } else {
            assert(i == 8);
        }
    }
}

/// A digit string contains no path separator.
proof fn lemma_digits_no_slash(s: Seq<char>)
    requires
        all_digits(s),
    ensures
        no_char(s, '/'),
{
    assert forall|i: int| 0 <= i < s.len() implies s[i] != '/' by {
        assert(is_digit(s[i]));
    }
}

/// The lowercase weekday names contain no path separator.
proof fn lemma_weekday_name_no_slash(w: Weekday)
    ensures
        no_char(weekday_name(w), '/'),
{
    reveal_strlit("sunday");
    reveal_strlit("monday");
    reveal_strlit("tuesday");
    reveal_strlit("wednesday");
    reveal_strlit("thursday");
    reveal_strlit("friday");
    reveal_strlit("saturday");
    lemma_no_slash_short(weekday_name(w));
}

// ---------------------------------------------------------------------------
// Decoding
// ---------------------------------------------------------------------------

/// Reads a schedule and user back out of a sequence of path segments.
pub open spec fn decode_segs(segs: Seq<Seq<char>>) -> Option<(ScheduleV, Seq<char>)> {
    if segs.len() == 3 && segs[0] == "daily"@ {
        Some((ScheduleV::Daily { time: segs[1] }, segs[2]))
    } else if segs.len() == 4 && segs[0] == "weekly"@ {
        match weekday_of_name(segs[1]) {
            Some(w) => Some((ScheduleV::Weekly { weekday: w, time: segs[2] }, segs[3])),
            None => None,
        }
    } else if segs.len() == 5 && segs[0] == "biweekly"@ {
        if segs[1] == "0"@ || segs[1] == "1"@ {
            match weekday_of_name(segs[2]) {
                Some(w) => Some((
                    ScheduleV::BiWeekly { weekday: w, time: segs[3], odd: segs[1] == "1"@ },
                    segs[4],
                )),
                None => None,
            }
        } else {
            None
        }
    } else if segs.len() == 4 && segs[0] == "monthly"@ {
        if segs[1].len() > 0 && all_digits(segs[1]) && digits_val(segs[1]) <= u32::MAX {
            Some((
                ScheduleV::Monthly { day: digits_val(segs[1]) as u32, time: segs[2] },
                segs[3],
            ))
        } else {
            None
        }
    } else if segs.len() == 5 && segs[0] == "yearly"@ {
        if segs[1].len() > 0 && all_digits(segs[1]) && 1 <= digits_val(segs[1]) <= 12
            && segs[2].len() > 0 && all_digits(segs[2]) && digits_val(segs[2]) <= u32::MAX {
            Some((
                ScheduleV::Yearly {
                    day: digits_val(segs[2]) as u32,
                    time: segs[3],
                    month: month_of_num(digits_val(segs[1])),
                },
                segs[4],
            ))
        } else {
            None
        }
    } else {
        None
    }
}

/// Reads a schedule and user back out of a canonical path.
pub open spec fn decode_spec(p: Seq<char>) -> Option<(ScheduleV, Seq<char>)> {
    if p.len() >= recurring_prefix().len() && p.take(recurring_prefix().len() as int)
        == recurring_prefix() {
        decode_segs(split_seq(p.skip(recurring_prefix().len() as int)))
    } else {
        None
    }
}

/// Decoding undoes encoding: the storage path of any well-formed schedule,
/// for any user whose id contains no path separator, reads back as exactly
/// that schedule and user.
pub proof fn lemma_decode_encode(s: ScheduleV, u: Seq<char>)
    requires
        wf_schedule(s),
        no_char(u, '/'),
    ensures
        decode_spec(encode_spec(s, u)) == Some((s, u)),
{
    let p = encode_spec(s, u);
    let pre = recurring_prefix();
    let segs = segments_of(s, u);
    assert(p.take(pre.len() as int) =~= pre);
    assert(p.skip(pre.len() as int) =~= join_seq(segs));
    reveal_strlit("daily");
    reveal_strlit("weekly");
    reveal_strlit("biweekly");
    reveal_strlit("monthly");
    reveal_strlit("yearly");
    reveal_strlit("0");
    reveal_strlit("1");
    reveal_strlit("sunday");
    reveal_strlit("monday");
    reveal_strlit("tuesday");
    reveal_strlit("wednesday");
    reveal_strlit("thursday");
    reveal_strlit("friday");
    reveal_strlit("saturday");
    match s {
        ScheduleV::Daily { time } => {
            lemma_no_slash_short("daily"@);
            lemma_split_join(segs);
        },
        ScheduleV::Weekly { weekday, time } => {
            lemma_no_slash_short("weekly"@);
            lemma_weekday_name_no_slash(weekday);
            lemma_split_join(segs);
            lemma_weekday_name_roundtrip(weekday);
        },
        ScheduleV::BiWeekly { weekday, time, odd } => {
            lemma_no_slash_short("biweekly"@);
            lemma_no_slash_short("0"@);
            lemma_no_slash_short("1"@);
            lemma_weekday_name_no_slash(weekday);
            lemma_split_join(segs);
            lemma_weekday_name_roundtrip(weekday);
            assert("0"@ != "1"@) by {
                assert("0"@[0] != "1"@[0]);
            }
        },
        ScheduleV::Monthly { day, time } => {
            lemma_no_slash_short("monthly"@);
            lemma_dec_digits_val(day as nat);
            lemma_digits_no_slash(dec_digits(day as nat));
            lemma_split_join(segs);
        },
        ScheduleV::Yearly { day, time, month } => {
            lemma_no_slash_short("yearly"@);
            lemma_dec_digits_val(day as nat);
            lemma_dec_digits_val(month_num(month) as nat);
            lemma_digits_no_slash(dec_digits(day as nat));
            lemma_digits_no_slash(dec_digits(month_num(month) as nat));
            lemma_split_join(segs);
        },
    }
}

/// Splits a path into its '/'-separated segments.
fn split_slashes(s: &str) -> (v: Vec<String>)
    ensures
        v.deep_view() == split_seq(s@),
    decreases s@.len(),
{
    match find_char(s, '/') {
        Some(i) => {
            proof {
                lemma_first_occur(s@, '/');
            }
            let len = s.unicode_len();
            let head = s.substring_char(0, i);
            let tail = s.substring_char(i + 1, len);
            let mut v = split_slashes(tail);
            proof {
                assert(head@ =~= s@.take(i as int));
                assert(tail@ =~= s@.skip(i + 1));
            }
            v.insert(0, head.to_owned());
            proof {
                assert(v.deep_view() =~= split_seq(s@));
            }
            v
        },
        None => {
            let mut v: Vec<String> = Vec::new();
            v.push(s.to_owned());
            proof {
                lemma_first_occur(s@, '/');
                if 0 <= first_occur(s@, '/') < s@.len() {
                    assert(s@[first_occur(s@, '/')] == '/');
                }
                assert(v.deep_view() =~= split_seq(s@));
            }
            v
        },
    }
}

/// Reads the schedule and user a canonical path encodes, if it is one.
pub fn decode_file_location(path: &str) -> (r: Option<(Schedule, String)>)
    ensures
        (match r {
            Some(p) => decode_spec(path@) == Some((p.0@, p.1@)),
            None => decode_spec(path@) is None,
        }),
{
    let pre = "/mnt/data/recurring/";
    let plen = pre.unicode_len();
    let len = path.unicode_len();
    if len < plen {
        return None;
    }
    let head = path.substring_char(0, plen);
    if !str_eq(head, pre) {
        proof {
            assert(head@ =~= path@.take(recurring_prefix().len() as int));
        }
        return None;
    }
    proof {
        assert(head@ =~= path@.take(recurring_prefix().len() as int));
    }
    let rest = path.substring_char(plen, len);
    proof {
        assert(rest@ =~= path@.skip(recurring_prefix().len() as int));
    }
    let segs = split_slashes(rest);
    let ghost sv = split_seq(rest@);
    let n = segs.len();
    proof {
        assert(sv.len() == n);
        assert(forall|i: int| 0 <= i < n ==> segs@[i]@ == sv[i]);
        if n >= 2 && all_digits(sv[1]) {
            crate::strutil::lemma_digits_val_nonneg(sv[1]);
        }
        if n >= 3 && all_digits(sv[2]) {
            crate::strutil::lemma_digits_val_nonneg(sv[2]);
        }
    }
    if n == 3 && str_eq(segs[0].as_str(), "daily") {
        let time = segs[1].clone();
        let user = segs[2].clone();
        Some((Schedule::Daily { time }, user))
    } else if n == 4 && str_eq(segs[0].as_str(), "weekly") {
        match weekday_from_name(segs[1].as_str()) {
            Some(w) => {
                let time = segs[2].clone();
                let user = segs[3].clone();
                Some((Schedule::Weekly { weekday: w, time }, user))
            },
            None => None,
        }
    } else if n == 5 && str_eq(segs[0].as_str(), "biweekly") {
        if str_eq(segs[1].as_str(), "0") || str_eq(segs[1].as_str(), "1") {
            match weekday_from_name(segs[2].as_str()) {
                Some(w) => {
                    let odd = str_eq(segs[1].as_str(), "1");
                    let time = segs[3].clone();
                    let user = segs[4].clone();
                    Some((Schedule::BiWeekly { weekday: w, time, odd }, user))
                },
                None => None,
            }
        } else {
            None
        }
    } else if n == 4 && str_eq(segs[0].as_str(), "monthly") {
        match parse_u32_bounded(segs[1].as_str(), u32::MAX) {
            Some(day) => {
                let time = segs[2].clone();
                let user = segs[3].clone();
                Some((Schedule::Monthly { day, time }, user))
            },
            None => None,
        }
    } else if n == 5 && str_eq(segs[0].as_str(), "yearly") {
        if let Some(m) = parse_u32_bounded(segs[1].as_str(), 12) {
            if m >= 1 {
                if let Some(day) = parse_u32_bounded(segs[2].as_str(), u32::MAX) {
                    if let Some(month) = crate::calendar::get_month_from_int(m as i32) {
                        let time = segs[3].clone();
                        let user = segs[4].clone();
                        Some((Schedule::Yearly { day, time, month }, user))
                    } else {
                        None
                    }
                } else {
                    None
                }
            } else {
                None
            }
        } else {
            None
        }
    } else {
        None
    }
}

} // verus!
