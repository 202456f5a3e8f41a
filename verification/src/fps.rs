use vstd::prelude::*;
use vstd::string::*;
use std::time::Instant;

use crate::time::{instant_after_seconds, instant_ge, instant_now};

verus! {

/// The decimal text of a number.
pub open spec fn decimal(n: nat) -> Seq<char>
    decreases n,
{
    let digit = (('0' as u32) + (n % 10) as u32) as char;
    if n < 10 {
        seq![digit]
    } else {
        decimal(n / 10).push(digit)
    }
}

/// The decimal digit of a number below ten.
pub open spec fn digit_char(d: nat) -> char {
    (('0' as u32) + d as u32) as char
}

/// The text of one decimal digit.
fn digit_text(d: u64) -> (text: &'static str)
    requires
        d < 10,
    ensures
        text@ == seq![digit_char(d as nat)],
{
    proof {
        reveal_strlit("0");
        reveal_strlit("1");
        reveal_strlit("2");
        reveal_strlit("3");
        reveal_strlit("4");
        reveal_strlit("5");
        reveal_strlit("6");
        reveal_strlit("7");
        reveal_strlit("8");
        reveal_strlit("9");
    }
    match d {
        0 => "0",
        1 => "1",
        2 => "2",
        3 => "3",
        4 => "4",
        5 => "5",
        6 => "6",
        7 => "7",
        8 => "8",
        _ => "9",
    }
}

/// The decimal text of `value`, without sign or leading zeros.
pub(crate) fn decimal_string(value: u64) -> (text: String)
    ensures
        text@ == decimal(value as nat),
    decreases value,
{
    if value < 10 {
        String::from_str(digit_text(value))
    } else {
        let mut text = decimal_string(value / 10);
        text.append(digit_text(value % 10));
        text
    }
}

/// The length of a name in bytes of UTF-8.
pub open spec fn name_len(name: Seq<char>) -> usize {
    vstd::utf8::encode_utf8(name).len() as usize
}

/// Whether the counters are ordered by the length of their names, shortest first.
pub open spec fn sorted_by_name_len(counters: Seq<(String, u64)>) -> bool {
    forall|i: int, j: int| 0 <= i < j < counters.len() ==> name_len(#[trigger] counters[i].0@) <= name_len(#[trigger] counters[j].0@)
}

/// The report line of one counter: `name=rate ` with the rate per second.
pub open spec fn report_line(name: Seq<char>, count: u64, window_secs: u64) -> Seq<char> {
    name + seq!['='] + decimal((count / window_secs) as nat) + seq![' ']
}

/// The report of a sequence of counters: their lines one after another.
pub open spec fn report_text(counters: Seq<(String, u64)>, window_secs: u64) -> Seq<char>
    decreases counters.len(),
{
    if counters.len() == 0 {
        Seq::empty()
    } else {
        report_text(counters.drop_last(), window_secs) + report_line(
            counters.last().0@,
            counters.last().1,
            window_secs,
        )
    }
}

/// No name occurs twice among the counters.
pub open spec fn unique_names(counters: Seq<(String, u64)>) -> bool {
    forall|i: int, j: int| 0 <= i < j < counters.len() ==> #[trigger] counters[i].0@ != #[trigger] counters[j].0@
}

/// The count stored under `name`, zero when there is none.
pub open spec fn count_in(counters: Seq<(String, u64)>, name: Seq<char>) -> nat {
    if exists|i: int| 0 <= i < counters.len() && #[trigger] counters[i].0@ == name {
        counters[choose|i: int| 0 <= i < counters.len() && #[trigger] counters[i].0@ == name].1 as nat
    } else {
        0
    }
}

proof fn lemma_count_at(counters: Seq<(String, u64)>, name: Seq<char>, i: int)
    requires
        unique_names(counters),
        0 <= i < counters.len(),
        counters[i].0@ == name,
    ensures
        count_in(counters, name) == counters[i].1,
{
    let k = choose|k: int| 0 <= k < counters.len() && #[trigger] counters[k].0@ == name;
    if k != i {
        if k < i {
            assert(counters[k].0@ != counters[i].0@);
        } else {
            assert(counters[i].0@ != counters[k].0@);
        }
    }
}

/// The counters ordered by the length of their names, shortest first, those
/// of equal length in the order they come in.
fn sort_by_name_len(counters: &Vec<(String, u64)>) -> (sorted: Vec<(String, u64)>)
    ensures
        sorted_by_name_len(sorted@),
        sorted@.to_multiset() == counters@.to_multiset(),
{
    let mut sorted: Vec<(String, u64)> = Vec::new();
    let n = counters.len();
    let mut i: usize = 0;
    assert(sorted@ =~= counters@.take(0));
    while i < n
        invariant
            n == counters@.len(),
            i <= n,
            sorted_by_name_len(sorted@),
            sorted@.to_multiset() == counters@.take(i as int).to_multiset(),
        decreases n - i,
    {
        let entry = (counters[i].0.clone(), counters[i].1);
        let len = counters[i].0.as_str().len();
        let m = sorted.len();
        let mut p: usize = 0;
        while p < m && sorted[p].0.as_str().len() <= len
            invariant
                m == sorted@.len(),
                p <= m,
                len == name_len(entry.0@),
                forall|j: int| 0 <= j < p ==> name_len(#[trigger] sorted@[j].0@) <= len,
            decreases m - p,
        {
            p = p + 1;
        }
        let ghost before = sorted@;
        sorted.insert(p, entry);
        proof {
            assert(counters@.take(i as int + 1) =~= counters@.take(i as int).push(counters@[i as int]));
            assert(entry == counters@[i as int]);
            assert(sorted@ == before.insert(p as int, entry));
            vstd::seq_lib::to_multiset_insert(before, p as int, entry);
            vstd::seq_lib::to_multiset_build(counters@.take(i as int), entry);
            let s = sorted@;
            assert forall|a: int, b: int| 0 <= a < b < s.len() implies name_len(#[trigger] s[a].0@) <= name_len(#[trigger] s[b].0@) by {
                if b < p {
                    assert(s[a] == before[a] && s[b] == before[b]);
                } else if b == p {
                    assert(s[a] == before[a]);
                } else if a < p {
                    assert(s[a] == before[a] && s[b] == before[b - 1]);
                    if p < m {
                        assert(name_len(before[p as int].0@) > len);
                        assert(name_len(before[p as int].0@) <= name_len(before[b - 1].0@));
                    }
                } else if a == p {
                    assert(s[b] == before[b - 1]);
                    assert(name_len(before[p as int].0@) > len);
                    if b - 1 > p {
                        assert(name_len(before[p as int].0@) <= name_len(before[b - 1].0@));
                    }
                } else {
                    assert(s[a] == before[a - 1] && s[b] == before[b - 1]);
                }
            }
        }
        i = i + 1;
    }
    proof {
        assert(counters@.take(n as int) =~= counters@);
    }
    sorted
}

/// Counts named events and reports their rates once per window.
pub struct RateCounter {
    /// The length of a reporting window, in seconds.
    pub window_secs: u64,
    pub next_report: Instant,
    /// The events counted in the current window, by name.
    pub counters: Vec<(String, u64)>,
}

impl RateCounter {
    /// No name is counted twice, and the window is not empty.
    pub open spec fn wf(&self) -> bool {
        &&& self.window_secs > 0
        &&& unique_names(self.counters@)
    }

    /// How many events named `name` were counted in this window.
    pub open spec fn count(&self, name: Seq<char>) -> nat {
        count_in(self.counters@, name)
    }

    pub fn new() -> (counter: Self)
        ensures
            counter.wf(),
            counter.window_secs == 1,
            counter.counters@.len() == 0,
    {
        let window_secs: u64 = 1;
        RateCounter { window_secs, next_report: Self::calc_next_report(window_secs), counters: Vec::new() }
    }

    /// The instant one window from now (now itself should the clock not
    /// reach that far).
    fn calc_next_report(window_secs: u64) -> Instant {
        let now = instant_now();
        match instant_after_seconds(&now, window_secs) {
            Some(later) => later,
            None => now,
        }
    }

    /// Counts one event named `name`.
    pub fn tick(&mut self, name: &str) -> (counter: &mut Self)
        requires
            old(self).wf(),
            old(self).count(name@) < u64::MAX,
        ensures
            counter.wf(),
            counter.window_secs == old(self).window_secs,
            counter.next_report == old(self).next_report,
            counter.count(name@) == old(self).count(name@) + 1,
            forall|other: Seq<char>| other != name@ ==> #[trigger] counter.count(other) == old(self).count(other),
            *final(self) == *final(counter),
    {
        let key = name.to_string();
        let n = self.counters.len();
        let ghost old_counters = self.counters@;
        let mut i: usize = 0;
        while i < n
            invariant
                self.wf(),
                self.window_secs == old(self).window_secs,
                self.next_report == old(self).next_report,
                count_in(old_counters, name@) < u64::MAX,
                old(self).counters@ == old_counters,
                self.counters@ == old_counters,
                n == self.counters@.len(),
                i <= n,
                key@ == name@,
                forall|j: int| 0 <= j < i ==> (#[trigger] self.counters@[j]).0@ != name@,
            decreases n - i,
        {
            if self.counters[i].0 == key {
                proof {
                    lemma_count_at(old_counters, name@, i as int);
                }
                let count = self.counters[i].1;
                let entry_name = self.counters[i].0.clone();
                self.counters.set(i, (entry_name, count + 1));
                proof {
                    let s = self.counters@;
                    assert forall|a: int, b: int| 0 <= a < b < s.len() implies #[trigger] s[a].0@ != #[trigger] s[b].0@ by {
                        assert(s[a].0@ == old_counters[a].0@ && s[b].0@ == old_counters[b].0@);
                    }
                    lemma_count_at(s, name@, i as int);
                    assert forall|other: Seq<char>| other != name@ implies #[trigger] count_in(s, other) == count_in(old_counters, other) by {
                        if exists|m: int| 0 <= m < old_counters.len() && #[trigger] old_counters[m].0@ == other {
                            let m = choose|m: int| 0 <= m < old_counters.len() && #[trigger] old_counters[m].0@ == other;
                            lemma_count_at(old_counters, other, m);
                            assert(s[m] == old_counters[m]);
                            lemma_count_at(s, other, m);
                        } else {
                            assert forall|m: int| 0 <= m < s.len() implies #[trigger] s[m].0@ != other by {
                                assert(s[m].0@ == old_counters[m].0@);
                            }
                        }
                    }
                    assert(old(self).counters@ == old_counters);
                    assert(self.count(name@) == old(self).count(name@) + 1);
                }
                return self;
            }
            i = i + 1;
        }
        self.counters.push((key, 1));
        proof {
            let s = self.counters@;
            assert forall|a: int, b: int| 0 <= a < b < s.len() implies #[trigger] s[a].0@ != #[trigger] s[b].0@ by {
                assert(s[a] == old_counters[a]);
                if b < n {
                    assert(s[b] == old_counters[b]);
                }
            }
            lemma_count_at(s, name@, n as int);
            assert forall|other: Seq<char>| other != name@ implies #[trigger] count_in(s, other) == count_in(old_counters, other) by {
                if exists|m: int| 0 <= m < old_counters.len() && #[trigger] old_counters[m].0@ == other {
                    let m = choose|m: int| 0 <= m < old_counters.len() && #[trigger] old_counters[m].0@ == other;
                    lemma_count_at(old_counters, other, m);
                    assert(s[m] == old_counters[m]);
                    lemma_count_at(s, other, m);
                } else {
                    assert forall|m: int| 0 <= m < s.len() implies #[trigger] s[m].0@ != other by {
                        if m < n {
                            assert(s[m] == old_counters[m]);
                        }
                    }
                }
            }
        }
        self
    }
    /// The report of the counters, and the counts started over, once the
    /// window is over (the clock says so); nothing before. See [`Self::report_due`].
    pub fn report(&mut self) -> (report: Option<String>)
        requires
            old(self).wf(),
        ensures
            final(self).wf(),
            final(self).window_secs == old(self).window_secs,
            match report {
                Some(text) => final(self).counters@.len() == 0 && exists|sorted: Seq<(String, u64)>| {
                    &&& sorted_by_name_len(sorted)
                    &&& sorted.to_multiset() == old(self).counters@.to_multiset()
                    &&& text@ == report_text(sorted, old(self).window_secs)
                },
                None => *final(self) == *old(self),
            },
    {
        let now = instant_now();
        let due = instant_ge(&now, &self.next_report);
        let next = Self::calc_next_report(self.window_secs);
        self.report_due(due, next)
    }

    /// The report when the window is over (`due`), with the counts started
    /// over and the next report due at `next`: every counter once, shortest
    /// name first, with its rate per second. Nothing, and nothing changed,
    /// while the window lasts.
    pub fn report_due(&mut self, due: bool, next: Instant) -> (report: Option<String>)
        requires
            old(self).wf(),
        ensures
            final(self).wf(),
            final(self).window_secs == old(self).window_secs,
            due ==> (report matches Some(text) && final(self).counters@.len() == 0 && final(self).next_report == next
                && exists|sorted: Seq<(String, u64)>| {
                    &&& sorted_by_name_len(sorted)
                    &&& sorted.to_multiset() == old(self).counters@.to_multiset()
                    &&& text@ == report_text(sorted, old(self).window_secs)
                }),
            !due ==> report is None && *final(self) == *old(self),
    {
        if due {
            self.next_report = next;
            let sorted = sort_by_name_len(&self.counters);
            let mut text = String::new();
            let n = sorted.len();
            let mut i: usize = 0;
            proof {
                reveal_strlit("=");
                reveal_strlit(" ");
                assert(sorted@.take(0) =~= Seq::<(String, u64)>::empty());
            }
            while i < n
                invariant
                    n == sorted@.len(),
                    i <= n,
                    self.window_secs > 0,
                    "="@ == seq!['='],
                    " "@ == seq![' '],
                    text@ == report_text(sorted@.take(i as int), self.window_secs),
                decreases n - i,
            {
                let rate = decimal_string(sorted[i].1 / self.window_secs);
                text.append(sorted[i].0.as_str());
                text.append("=");
                text.append(rate.as_str());
                text.append(" ");
                proof {
                    assert(sorted@.take(i as int + 1).drop_last() =~= sorted@.take(i as int));
                    assert(text@ =~= report_text(sorted@.take(i as int), self.window_secs) + report_line(
                        sorted@[i as int].0@,
                        sorted@[i as int].1,
                        self.window_secs,
                    ));
                }
                i = i + 1;
            }
            proof {
                assert(sorted@.take(n as int) =~= sorted@);
            }
            self.counters.clear();
            Some(text)
        } else {
            None
        }
    }
}

} // verus!
