//! The record of one alarm.

use vstd::prelude::*;
use crate::clock::{naive_time_parsed, TIME_FORMAT};

verus! {

/// One alarm as a plain value: what an `AlarmEntry` stands for.
pub struct AlarmView {
    pub id: Seq<char>,
    pub time: Seq<char>,
    pub playlist_name: Seq<char>,
    pub playlist_uri: Seq<char>,
    pub volume: u8,
    pub active: bool,
    pub days: Seq<Seq<char>>,
    pub fade_in: bool,
    pub fade_in_duration: u16,
}

/// The characters of each text of a list.
pub open spec fn labels_of(texts: Seq<String>) -> Seq<Seq<char>> {
    texts.map_values(|t: String| t@)
}

/// Whether a text is a time of day that the parser accepts as hour and minute.
pub open spec fn is_time_of_day(text: Seq<char>) -> bool {
    naive_time_parsed(text, TIME_FORMAT@) is Some
}

impl AlarmView {
    /// What the registry keeps true of every alarm that it creates: the time
    /// is a time of day, the volume is at most 100, and no day is named twice.
    pub open spec fn valid(self) -> bool {
        &&& is_time_of_day(self.time)
        &&& self.volume <= 100
        &&& self.days.no_duplicates()
    }
}

/// One scheduled alarm: when it rings, what it plays and how.
#[derive(Debug)]
pub struct AlarmEntry {
    /// Identifies the alarm; given at creation and never changed.
    pub id: String,
    /// The time of day at which the alarm rings, as `HH:MM`.
    pub time: String,
    pub playlist_name: String,
    /// What to play, in the music service's own terms.
    pub playlist_uri: String,
    /// From 0 to 100.
    pub volume: u8,
    /// An alarm that is not active is kept and never rings.
    pub active: bool,
    /// The days on which the alarm rings, by name; none means every day.
    pub days: Vec<String>,
    pub fade_in: bool,
    /// In seconds.
    pub fade_in_duration: u16,
}

impl View for AlarmEntry {
    type V = AlarmView;

    open spec fn view(&self) -> AlarmView {
        AlarmView {
            id: self.id@,
            time: self.time@,
            playlist_name: self.playlist_name@,
            playlist_uri: self.playlist_uri@,
            volume: self.volume,
            active: self.active,
            days: labels_of(self.days@),
            fade_in: self.fade_in,
            fade_in_duration: self.fade_in_duration,
        }
    }
}

/// A copy of a list of texts.
pub fn copy_texts(texts: &Vec<String>) -> (copy: Vec<String>)
    ensures
        copy@ == texts@,
{
    let mut copy: Vec<String> = Vec::new();
    let mut i: usize = 0;
    while i < texts.len()
        invariant
            i <= texts.len(),
            copy@ == texts@.take(i as int),
        decreases texts.len() - i,
    {
        copy.push(texts[i].clone());
        assert(copy@ =~= texts@.take(i + 1));
        i += 1;
    }
    assert(texts@.take(texts.len() as int) =~= texts@);
    copy
}

impl Clone for AlarmEntry {
    fn clone(&self) -> (copy: AlarmEntry)
        ensures
            copy@ == self@,
    {
        AlarmEntry {
            id: self.id.clone(),
            time: self.time.clone(),
            playlist_name: self.playlist_name.clone(),
            playlist_uri: self.playlist_uri.clone(),
            volume: self.volume,
            active: self.active,
            days: copy_texts(&self.days),
            fade_in: self.fade_in,
            fade_in_duration: self.fade_in_duration,
        }
    }
}

} // verus!
