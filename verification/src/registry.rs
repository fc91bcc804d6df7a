//! The registry of alarms: the one collection that holds every alarm, in the
//! order in which they were created. An operation that changes it takes it by
//! `&mut`, so no reader ever sees a record half changed.

use vstd::prelude::*;
use vstd::string::*;
use crate::alarm::{
    current_hhmm, has_text, is_due, is_due_at, label_of, lemma_labels_differ, rings_on,
    weekday_to_string,
};
use crate::clock::{local_now, parse_time, Moment, TimeOfDay, Weekday, TIME_FORMAT};
use crate::entry::{is_time_of_day, labels_of, AlarmEntry, AlarmView};
use crate::error::ErrorKind;

verus! {

/// The alarms of a list as plain values.
pub open spec fn views_of(alarms: Seq<AlarmEntry>) -> Seq<AlarmView> {
    alarms.map_values(|a: AlarmEntry| a@)
}

/// What an alarm that may be missing stands for.
pub open spec fn view_of(alarm: Option<AlarmEntry>) -> Option<AlarmView> {
    match alarm {
        Some(a) => Some(a@),
        None => None,
    }
}

/// Whether some alarm has the identifier `id`.
pub open spec fn has_id(alarms: Seq<AlarmView>, id: Seq<char>) -> bool {
    exists|i: int| 0 <= i < alarms.len() && (#[trigger] alarms[i]).id == id
}

/// The place of the first alarm at or after `from` that has the identifier `id`.
pub open spec fn first_with_id(alarms: Seq<AlarmView>, id: Seq<char>, from: int) -> Option<int>
    decreases alarms.len() - from,
{
    if from < 0 || from >= alarms.len() {
        None
    } else if alarms[from].id == id {
        Some(from)
    } else {
        first_with_id(alarms, id, from + 1)
    }
}

/// No two alarms have the same identifier.
pub open spec fn ids_distinct(alarms: Seq<AlarmView>) -> bool {
    forall|i: int, j: int|
        0 <= i < j < alarms.len() ==> (#[trigger] alarms[i]).id != (#[trigger] alarms[j]).id
}

/// What the registry keeps true of its alarms as long as every identifier it
/// is given is new: each alarm is valid, and no identifier occurs twice.
pub open spec fn registry_valid(alarms: Seq<AlarmView>) -> bool {
    &&& ids_distinct(alarms)
    &&& forall|i: int| 0 <= i < alarms.len() ==> (#[trigger] alarms[i]).valid()
}

/// The texts of a list without repetitions: of equal texts the first stays.
pub open spec fn distinct(texts: Seq<Seq<char>>) -> Seq<Seq<char>>
    decreases texts.len(),
{
    if texts.len() == 0 {
        texts
    } else if distinct(texts.drop_last()).contains(texts.last()) {
        distinct(texts.drop_last())
    } else {
        distinct(texts.drop_last()).push(texts.last())
    }
}

/// A volume brought into the range from 0 to 100.
pub open spec fn clamped(volume: u8) -> u8 {
    if volume > 100 {
        100
    } else {
        volume
    }
}

/// The alarm that the registry makes of a request: switched on, its volume
/// brought into range, each of its days named once.
pub open spec fn new_alarm(
    id: Seq<char>,
    time: Seq<char>,
    playlist_name: Seq<char>,
    playlist_uri: Seq<char>,
    volume: u8,
    days: Seq<Seq<char>>,
    fade_in: bool,
    fade_in_duration: u16,
) -> AlarmView {
    AlarmView {
        id,
        time,
        playlist_name,
        playlist_uri,
        volume: clamped(volume),
        active: true,
        days: distinct(days),
        fade_in,
        fade_in_duration,
    }
}

/// An alarm switched from on to off or from off to on.
pub open spec fn flipped(alarm: AlarmView) -> AlarmView {
    AlarmView { active: !alarm.active, ..alarm }
}

/// The alarms after the first one with the identifier `id` was flipped; the
/// same alarms where none has it.
pub open spec fn toggled(alarms: Seq<AlarmView>, id: Seq<char>) -> Seq<AlarmView> {
    match first_with_id(alarms, id, 0) {
        Some(i) => alarms.update(i, flipped(alarms[i])),
        None => alarms,
    }
}

/// What toggling returns: the new state of the alarm that was flipped, or
/// `NotFound`.
pub open spec fn toggle_result(alarms: Seq<AlarmView>, id: Seq<char>) -> Result<bool, ErrorKind> {
    match first_with_id(alarms, id, 0) {
        Some(i) => Ok(!alarms[i].active),
        None => Err(ErrorKind::NotFound),
    }
}

/// The test that an alarm passes where its identifier is not `id`.
pub open spec fn keeps(id: Seq<char>) -> spec_fn(AlarmView) -> bool {
    |a: AlarmView| a.id != id
}

/// The alarms that do not have the identifier `id`, in their order.
pub open spec fn without(alarms: Seq<AlarmView>, id: Seq<char>) -> Seq<AlarmView> {
    alarms.filter(keeps(id))
}

/// The place of the first alarm at or after `from` that is due at `now`.
pub open spec fn first_due(alarms: Seq<AlarmView>, now: Moment, from: int) -> Option<int>
    decreases alarms.len() - from,
{
    if from < 0 || from >= alarms.len() {
        None
    } else if is_due(alarms[from], now) {
        Some(from)
    } else {
        first_due(alarms, now, from + 1)
    }
}

/// The alarm that rings at `now`: the first in the registry's order that is
/// due, and none where no alarm is due.
pub open spec fn due_alarm(alarms: Seq<AlarmView>, now: Moment) -> Option<AlarmView> {
    match first_due(alarms, now, 0) {
        Some(i) => Some(alarms[i]),
        None => None,
    }
}

/// A volume brought into the range from 0 to 100.
pub fn clamp_volume(volume: u8) -> (level: u8)
    ensures
        level == clamped(volume),
{
    if volume > 100 {
        100
    } else {
        volume
    }
}

/// The texts of a list, each once: of equal texts the first stays.
pub fn distinct_texts(texts: &Vec<String>) -> (kept: Vec<String>)
    ensures
        labels_of(kept@) == distinct(labels_of(texts@)),
{
    let mut kept: Vec<String> = Vec::new();
    let mut i: usize = 0;
    assert(labels_of(texts@).take(0) =~= Seq::empty());
    while i < texts.len()
        invariant
            i <= texts.len(),
            labels_of(kept@) == distinct(labels_of(texts@).take(i as int)),
        decreases texts.len() - i,
    {
        let ghost before = labels_of(texts@).take(i as int);
        let ghost after = labels_of(texts@).take(i + 1);
        assert(after.drop_last() =~= before);
        assert(after.last() == texts@[i as int]@);
        if !has_text(&kept, &texts[i]) {
            kept.push(texts[i].clone());
            assert(labels_of(kept@) =~= distinct(before).push(texts@[i as int]@));
        }
        i += 1;
    }
    assert(labels_of(texts@).take(texts.len() as int) =~= labels_of(texts@));
    kept
}

/// Draws an identifier with `uuid::Uuid::new_v4` and writes it with the
/// `Display` of `Uuid`: 32 hexadecimal digits in five groups with hyphens
/// between them, 36 characters in all. Which identifier comes is a matter of
/// chance, and nothing is stated of it but its length.
#[verifier::external_body]
fn new_id() -> (id: String)
    ensures
        id@.len() == 36,
{
    uuid::Uuid::new_v4().to_string()
}

/// The registry of alarms.
pub struct AppState {
    /// The alarms, in the order in which they were created.
    pub alarms: Vec<AlarmEntry>,
}

impl View for AppState {
    type V = Seq<AlarmView>;

    open spec fn view(&self) -> Seq<AlarmView> {
        views_of(self.alarms@)
    }
}

impl AppState {
    /// A registry without alarms.
    pub fn new() -> (state: AppState)
        ensures
            state@ == Seq::<AlarmView>::empty(),
    {
        let state = AppState { alarms: Vec::new() };
        assert(state@ =~= Seq::<AlarmView>::empty());
        state
    }

    /// Puts `records` in the place of all the alarms. The records are taken
    /// as they are.
    pub fn restore(&mut self, records: Vec<AlarmEntry>)
        ensures
            final(self)@ == views_of(records@),
    {
        self.alarms = records;
    }

    /// A copy of every alarm, in the registry's order.
    pub fn get_alarms(&self) -> (alarms: Vec<AlarmEntry>)
        ensures
            views_of(alarms@) == self@,
    {
        let mut alarms: Vec<AlarmEntry> = Vec::new();
        let mut i: usize = 0;
        while i < self.alarms.len()
            invariant
                i <= self.alarms.len(),
                alarms@.len() == i,
                views_of(alarms@) == self@.take(i as int),
            decreases self.alarms.len() - i,
        {
            let ghost before = alarms@;
            alarms.push(self.alarms[i].clone());
            assert forall|j: int| 0 <= j < i + 1 implies views_of(alarms@)[j] == self@.take(
                i + 1,
            )[j] by {
                if j < i {
                    assert(alarms@[j] == before[j]);
                    assert(views_of(before)[j] == self@.take(i as int)[j]);
                }
            }
            assert(views_of(alarms@) =~= self@.take(i + 1));
            i += 1;
        }
        assert(self@.take(self.alarms.len() as int) =~= self@);
        alarms
    }

    /// The place of the first alarm with the identifier `id`.
    pub fn position(&self, id: &str) -> (place: Option<usize>)
        ensures
            match place {
                Some(i) => first_with_id(self@, id@, 0) == Some(i as int) && i < self@.len(),
                None => first_with_id(self@, id@, 0) is None,
            },
    {
        let wanted = id.to_owned();
        let mut i: usize = 0;
        while i < self.alarms.len()
            invariant
                i <= self.alarms.len(),
                wanted@ == id@,
                first_with_id(self@, id@, 0) == first_with_id(self@, id@, i as int),
            decreases self.alarms.len() - i,
        {
            if self.alarms[i].id == wanted {
                return Some(i);
            }
            i += 1;
        }
        None
    }

    /// Adds an alarm, given what the parser made of `time` and a new
    /// identifier. Where the time was not parsed nothing is added. The alarm
    /// starts switched on; a volume above 100 is stored as 100, and a day
    /// that is named more than once is stored once.
    pub fn create(
        &mut self,
        parsed: Option<TimeOfDay>,
        id: String,
        time: String,
        playlist_name: String,
        playlist_uri: String,
        volume: u8,
        days: Vec<String>,
        fade_in: bool,
        fade_in_duration: u16,
    ) -> (created: Result<AlarmEntry, ErrorKind>)
        ensures
            created is Err <==> parsed is None,
            created matches Err(e) ==> e == ErrorKind::InvalidTimeFormat && final(self)@ == old(
                self,
            )@,
            created matches Ok(alarm) ==> alarm@ == new_alarm(
                id@,
                time@,
                playlist_name@,
                playlist_uri@,
                volume,
                labels_of(days@),
                fade_in,
                fade_in_duration,
            ) && final(self)@ == old(self)@.push(alarm@),
    {
        if parsed.is_none() {
            return Err(ErrorKind::InvalidTimeFormat);
        }
        let alarm = AlarmEntry {
            id,
            time,
            playlist_name,
            playlist_uri,
            volume: clamp_volume(volume),
            active: true,
            days: distinct_texts(&days),
            fade_in,
            fade_in_duration,
        };
        let stored = alarm.clone();
        self.alarms.push(alarm);
        assert(self@ =~= old(self)@.push(stored@));
        Ok(stored)
    }

    /// Switches the first alarm with the identifier `alarm_id` from on to off
    /// or from off to on, and returns its new state. Fails with `NotFound`,
    /// and changes nothing, where no alarm has that identifier.
    pub fn toggle_alarm(&mut self, alarm_id: String) -> (state: Result<bool, ErrorKind>)
        ensures
            state == toggle_result(old(self)@, alarm_id@),
            final(self)@ == toggled(old(self)@, alarm_id@),
            registry_valid(old(self)@) ==> registry_valid(final(self)@),
    {
        proof {
            if registry_valid(self@) {
                law_toggle_keeps_valid(self@, alarm_id@);
            }
        }
        match self.position(alarm_id.as_str()) {
            Some(i) => {
                let state = !self.alarms[i].active;
                self.alarms[i].active = state;
                assert(self@ =~= old(self)@.update(i as int, flipped(old(self)@[i as int])));
                Ok(state)
            },
            None => Err(ErrorKind::NotFound),
        }
    }

    /// Adds an alarm for the time of day written in `time`, under an
    /// identifier that is drawn for it. Fails with `InvalidTimeFormat`, and
    /// changes nothing, where `time` is no time of day. The alarm starts
    /// switched on; a volume above 100 is stored as 100, and a day that is
    /// named more than once is stored once. That the identifier is new to the
    /// registry rests on the generator, and is not stated here.
    pub fn set_alarm(
        &mut self,
        time: String,
        playlist_name: String,
        playlist_uri: String,
        volume: u8,
        days: Vec<String>,
        fade_in: bool,
        fade_in_duration: u16,
    ) -> (created: Result<AlarmEntry, ErrorKind>)
        ensures
            created is Err <==> !is_time_of_day(time@),
            created matches Err(e) ==> e == ErrorKind::InvalidTimeFormat && final(self)@ == old(
                self,
            )@,
            created matches Ok(alarm) ==> alarm@ == new_alarm(
                alarm@.id,
                time@,
                playlist_name@,
                playlist_uri@,
                volume,
                labels_of(days@),
                fade_in,
                fade_in_duration,
            ) && alarm@.id.len() == 36 && final(self)@ == old(self)@.push(alarm@),
            created matches Ok(alarm) ==> (registry_valid(old(self)@) && !has_id(
                old(self)@,
                alarm@.id,
            ) ==> registry_valid(final(self)@)),
    {
        let parsed = parse_time(time.as_str(), TIME_FORMAT);
        let id = new_id();
        proof {
            if registry_valid(self@) && is_time_of_day(time@) && !has_id(self@, id@) {
                law_create_keeps_valid(
                    self@,
                    id@,
                    time@,
                    playlist_name@,
                    playlist_uri@,
                    volume,
                    labels_of(days@),
                    fade_in,
                    fade_in_duration,
                );
            }
        }
        self.create(
            parsed,
            id,
            time,
            playlist_name,
            playlist_uri,
            volume,
            days,
            fade_in,
            fade_in_duration,
        )
    }

    /// Removes every alarm with the identifier `alarm_id`. Fails with
    /// `NotFound`, and changes nothing, where no alarm has that identifier.
    pub fn delete_alarm(&mut self, alarm_id: String) -> (deleted: Result<(), ErrorKind>)
        ensures
            has_id(old(self)@, alarm_id@) ==> deleted is Ok && final(self)@ == without(
                old(self)@,
                alarm_id@,
            ),
            !has_id(old(self)@, alarm_id@) ==> deleted == Err::<(), ErrorKind>(ErrorKind::NotFound)
                && final(self)@ == old(self)@,
            registry_valid(old(self)@) ==> registry_valid(final(self)@),
    {
        let ghost before = self@;
        proof {
            if registry_valid(before) {
                law_delete_keeps_valid(before, alarm_id@);
            }
        }
        let ghost seen: int = 0;
        let mut found = false;
        let mut i: usize = 0;
        proof {
            reveal(Seq::filter);
            assert(before.take(0) =~= Seq::<AlarmView>::empty());
            assert(self@.take(0) =~= without(before.take(0), alarm_id@));
            assert(self@.skip(0) =~= before.skip(0));
        }
        while i < self.alarms.len()
            invariant
                i <= self.alarms.len(),
                i <= seen <= before.len(),
                self@.len() - i == before.len() - seen,
                self@.take(i as int) == without(before.take(seen), alarm_id@),
                self@.skip(i as int) == before.skip(seen),
                found == has_id(before.take(seen), alarm_id@),
                !found ==> i == seen && self@ == before,
            decreases self.alarms.len() - i,
        {
            let ghost current = self@;
            assert(current[i as int] == current.skip(i as int)[0]);
            assert(before[seen] == before.skip(seen)[0]);
            proof {
                reveal(Seq::filter);
                assert(before.take(seen + 1).drop_last() =~= before.take(seen));
                assert(before.take(seen + 1).last() == before[seen]);
                if has_id(before.take(seen), alarm_id@) {
                    let j = choose|j: int|
                        0 <= j < before.take(seen).len() && (#[trigger] before.take(seen)[j]).id
                            == alarm_id@;
                    assert(before.take(seen + 1)[j].id == alarm_id@);
                }
                if has_id(before.take(seen + 1), alarm_id@) && before[seen].id != alarm_id@ {
                    let j = choose|j: int|
                        0 <= j < before.take(seen + 1).len() && (#[trigger] before.take(
                            seen + 1,
                        )[j]).id == alarm_id@;
                    assert(before.take(seen)[j].id == alarm_id@);
                }
            }
            if self.alarms[i].id == alarm_id {
                self.alarms.remove(i);
                found = true;
                proof {
                    assert(before.take(seen + 1)[seen].id == alarm_id@);
                    assert(self@ =~= current.remove(i as int));
                    assert(self@.take(i as int) =~= current.take(i as int));
                    assert(self@.skip(i as int) =~= current.skip(i as int).skip(1));
                    assert(before.skip(seen + 1) =~= before.skip(seen).skip(1));
                    seen = seen + 1;
                }
            } else {
                proof {
                    assert(self@.take(i + 1) =~= current.take(i as int).push(current[i as int]));
                    assert(self@.skip(i + 1) =~= current.skip(i as int).skip(1));
                    assert(before.skip(seen + 1) =~= before.skip(seen).skip(1));
                    seen = seen + 1;
                }
                i += 1;
            }
        }
        proof {
            assert(self@.take(i as int) =~= self@);
            assert(before.take(seen) =~= before);
        }
        if found {
            Ok(())
        } else {
            Err(ErrorKind::NotFound)
        }
    }

    /// The alarm that rings at `now`: a copy of the first alarm, in the
    /// registry's order, that is due; `None` where no alarm is due.
    pub fn find_due(&self, now: &Moment) -> (due: Option<AlarmEntry>)
        ensures
            view_of(due) == due_alarm(self@, *now),
    {
        let hhmm = current_hhmm(now);
        let today = String::from_str(weekday_to_string(now.weekday));
        let mut i: usize = 0;
        while i < self.alarms.len()
            invariant
                i <= self.alarms.len(),
                hhmm@ == now.time@.hhmm(),
                today@ == label_of(now.weekday),
                first_due(self@, *now, 0) == first_due(self@, *now, i as int),
            decreases self.alarms.len() - i,
        {
            if is_due_at(&self.alarms[i], &hhmm, &today) {
                return Some(self.alarms[i].clone());
            }
            i += 1;
        }
        None
    }

    /// The alarm that rings now, by the machine's local clock. The answer is
    /// that of `find_due` for the moment that the clock gave.
    pub fn check_alarms(&self) -> (due: Option<AlarmEntry>)
        ensures
            exists|now: Moment| now.time@.valid() && view_of(due) == due_alarm(self@, now),
    {
        let now = local_now();
        let due = self.find_due(&now);
        assert(now.time@.valid() && view_of(due) == due_alarm(self@, now));
        due
    }
}

/// Where `first_with_id` finds an alarm, it is the first from `from` on with
/// the identifier; where it finds none, there is none from `from` on.
pub proof fn lemma_first_with_id(alarms: Seq<AlarmView>, id: Seq<char>, from: int)
    requires
        0 <= from,
    ensures
        first_with_id(alarms, id, from) matches Some(i) ==> from <= i < alarms.len() && alarms[i].id
            == id && forall|j: int| from <= j < i ==> (#[trigger] alarms[j]).id != id,
        first_with_id(alarms, id, from) is None ==> forall|j: int|
            from <= j < alarms.len() ==> (#[trigger] alarms[j]).id != id,
    decreases alarms.len() - from,
{
    if from < alarms.len() && alarms[from].id != id {
        lemma_first_with_id(alarms, id, from + 1);
    }
}

/// The first alarm from `from` on with the identifier is what `first_with_id` finds.
pub proof fn lemma_first_with_id_found(alarms: Seq<AlarmView>, id: Seq<char>, from: int, i: int)
    requires
        0 <= from <= i < alarms.len(),
        alarms[i].id == id,
        forall|j: int| from <= j < i ==> (#[trigger] alarms[j]).id != id,
    ensures
        first_with_id(alarms, id, from) == Some(i),
    decreases i - from,
{
    if from < i {
        assert(alarms[from].id != id);
        lemma_first_with_id_found(alarms, id, from + 1, i);
    }
}

/// Where `first_due` finds an alarm, it is the first from `from` on that is
/// due; where it finds none, none from `from` on is due.
pub proof fn lemma_first_due(alarms: Seq<AlarmView>, now: Moment, from: int)
    requires
        0 <= from,
    ensures
        first_due(alarms, now, from) matches Some(i) ==> from <= i < alarms.len() && is_due(
            alarms[i],
            now,
        ) && forall|j: int| from <= j < i ==> !is_due(#[trigger] alarms[j], now),
        first_due(alarms, now, from) is None ==> forall|j: int|
            from <= j < alarms.len() ==> !is_due(#[trigger] alarms[j], now),
    decreases alarms.len() - from,
{
    if from < alarms.len() && !is_due(alarms[from], now) {
        lemma_first_due(alarms, now, from + 1);
    }
}

/// The first alarm from `from` on that is due is what `first_due` finds.
pub proof fn lemma_first_due_found(alarms: Seq<AlarmView>, now: Moment, from: int, i: int)
    requires
        0 <= from <= i < alarms.len(),
        is_due(alarms[i], now),
        forall|j: int| from <= j < i ==> !is_due(#[trigger] alarms[j], now),
    ensures
        first_due(alarms, now, from) == Some(i),
    decreases i - from,
{
    if from < i {
        assert(!is_due(alarms[from], now));
        lemma_first_due_found(alarms, now, from + 1, i);
    }
}

/// A text is among those that `distinct` keeps exactly where it is in the list.
pub proof fn lemma_distinct_contains(texts: Seq<Seq<char>>, t: Seq<char>)
    ensures
        distinct(texts).contains(t) <==> texts.contains(t),
    decreases texts.len(),
{
    if texts.len() > 0 {
        let front = texts.drop_last();
        let last = texts.last();
        lemma_distinct_contains(front, t);
        lemma_distinct_contains(front, last);
        if texts.contains(t) {
            let i = choose|i: int| 0 <= i < texts.len() && texts[i] == t;
            if i < texts.len() - 1 {
                assert(front[i] == t);
                let k = choose|k: int| 0 <= k < distinct(front).len() && distinct(front)[k] == t;
                assert(distinct(texts)[k] == t);
            } else if !distinct(front).contains(last) {
                assert(distinct(texts)[distinct(front).len() as int] == last);
            }
        }
        if distinct(texts).contains(t) {
            let k = choose|k: int| 0 <= k < distinct(texts).len() && distinct(texts)[k] == t;
            if k < distinct(front).len() {
                assert(distinct(front)[k] == t);
                let i = choose|i: int| 0 <= i < front.len() && front[i] == t;
                assert(texts[i] == t);
            } else {
                assert(texts[texts.len() - 1] == t);
            }
        }
    }
}

/// What `distinct` keeps holds no text twice, and a list that holds no text
/// twice is kept whole.
pub proof fn lemma_distinct(texts: Seq<Seq<char>>)
    ensures
        distinct(texts).no_duplicates(),
        texts.no_duplicates() ==> distinct(texts) == texts,
    decreases texts.len(),
{
    if texts.len() > 0 {
        let front = texts.drop_last();
        let last = texts.last();
        lemma_distinct(front);
        lemma_distinct_contains(front, last);
        if texts.no_duplicates() {
            assert(front.no_duplicates());
            if front.contains(last) {
                let i = choose|i: int| 0 <= i < front.len() && front[i] == last;
                assert(texts[i] == texts[texts.len() - 1]);
            }
            assert(distinct(texts) =~= texts);
        }
    }
}

/// Storing each day once changes nothing about the days on which an alarm
/// rings.
pub proof fn law_stored_days_ring_alike(days: Seq<Seq<char>>, day: Weekday)
    ensures
        rings_on(distinct(days), day) <==> rings_on(days, day),
{
    lemma_distinct_contains(days, label_of(day));
    if days.len() > 0 {
        lemma_distinct_contains(days, days[0]);
        assert(days.contains(days[0]));
    }
    if distinct(days).len() > 0 {
        lemma_distinct_contains(days, distinct(days)[0]);
        assert(distinct(days).contains(distinct(days)[0]));
    }
}

/// An alarm that was created for a time of day is valid.
pub proof fn lemma_new_alarm_valid(
    id: Seq<char>,
    time: Seq<char>,
    playlist_name: Seq<char>,
    playlist_uri: Seq<char>,
    volume: u8,
    days: Seq<Seq<char>>,
    fade_in: bool,
    fade_in_duration: u16,
)
    requires
        is_time_of_day(time),
    ensures
        new_alarm(
            id,
            time,
            playlist_name,
            playlist_uri,
            volume,
            days,
            fade_in,
            fade_in_duration,
        ).valid(),
{
    lemma_distinct(days);
}

/// Creating an alarm for a time of day and then listing the alarms shows one
/// alarm more than before, the new one last: its time is the text that was
/// given, it is switched on, and its volume is the volume that was given, or
/// 100 where that was more. In a registry that was empty it is the only one.
pub proof fn law_create_then_list(
    alarms: Seq<AlarmView>,
    id: Seq<char>,
    time: Seq<char>,
    playlist_name: Seq<char>,
    playlist_uri: Seq<char>,
    volume: u8,
    days: Seq<Seq<char>>,
    fade_in: bool,
    fade_in_duration: u16,
)
    requires
        is_time_of_day(time),
    ensures
        ({
            let created = new_alarm(
                id,
                time,
                playlist_name,
                playlist_uri,
                volume,
                days,
                fade_in,
                fade_in_duration,
            );
            let listed = alarms.push(created);
            &&& listed.len() == alarms.len() + 1
            &&& listed.last() == created
            &&& alarms.len() == 0 ==> listed == seq![created]
            &&& created.time == time
            &&& created.active
            &&& created.volume <= 100
            &&& volume <= 100 ==> created.volume == volume
            &&& volume > 100 ==> created.volume == 100
            &&& created.valid()
        }),
{
    lemma_new_alarm_valid(
        id,
        time,
        playlist_name,
        playlist_uri,
        volume,
        days,
        fade_in,
        fade_in_duration,
    );
    let created = new_alarm(
        id,
        time,
        playlist_name,
        playlist_uri,
        volume,
        days,
        fade_in,
        fade_in_duration,
    );
    if alarms.len() == 0 {
        assert(alarms.push(created) =~= seq![created]);
    }
}

/// Toggling an alarm twice leaves the registry as it was, and the second
/// toggle returns the state that the alarm had at first.
pub proof fn law_toggle_twice(alarms: Seq<AlarmView>, id: Seq<char>)
    ensures
        toggled(toggled(alarms, id), id) == alarms,
        toggle_result(alarms, id) matches Ok(state) ==> toggle_result(toggled(alarms, id), id)
            == Ok::<bool, ErrorKind>(!state),
{
    lemma_first_with_id(alarms, id, 0);
    match first_with_id(alarms, id, 0) {
        Some(i) => {
            let once = toggled(alarms, id);
            assert forall|j: int| 0 <= j < i implies (#[trigger] once[j]).id != id by {
                assert(alarms[j].id != id);
            }
            lemma_first_with_id_found(once, id, 0, i);
            assert(toggled(once, id) =~= alarms);
        },
        None => {},
    }
}

/// Toggling succeeds exactly where some alarm has the identifier, as deleting
/// does; where none has it, toggling fails with `NotFound` and leaves the
/// alarms as they are.
pub proof fn law_toggle_absent(alarms: Seq<AlarmView>, id: Seq<char>)
    ensures
        toggle_result(alarms, id) is Ok <==> has_id(alarms, id),
        !has_id(alarms, id) ==> toggle_result(alarms, id) == Err::<bool, ErrorKind>(
            ErrorKind::NotFound,
        ) && toggled(alarms, id) == alarms,
{
    lemma_first_with_id(alarms, id, 0);
}

/// Toggling changes no alarm but the one it flips, and of that one only
/// whether it is switched on.
pub proof fn law_toggle_touches_one(alarms: Seq<AlarmView>, id: Seq<char>, i: int)
    requires
        0 <= i < alarms.len(),
    ensures
        toggled(alarms, id).len() == alarms.len(),
        toggled(alarms, id)[i] == alarms[i] || (first_with_id(alarms, id, 0) == Some(i)
            && toggled(alarms, id)[i] == flipped(alarms[i])),
{
    lemma_first_with_id(alarms, id, 0);
}

/// Deleting by an identifier that no alarm has leaves the alarms as they are.
pub proof fn law_delete_absent(alarms: Seq<AlarmView>, id: Seq<char>)
    requires
        !has_id(alarms, id),
    ensures
        without(alarms, id) == alarms,
    decreases alarms.len(),
{
    reveal(Seq::filter);
    if alarms.len() > 0 {
        let front = alarms.drop_last();
        assert forall|i: int| 0 <= i < front.len() implies (#[trigger] front[i]).id != id by {
            assert(alarms[i].id != id);
        }
        law_delete_absent(front, id);
        assert(alarms[alarms.len() - 1].id != id);
        assert(without(alarms, id) =~= alarms);
    }
}

/// After deleting by an identifier no alarm has it, every other alarm is
/// still there, and where some alarm had it the registry is shorter.
pub proof fn law_delete_removes(alarms: Seq<AlarmView>, id: Seq<char>)
    ensures
        !has_id(without(alarms, id), id),
        forall|a: AlarmView| without(alarms, id).contains(a) <==> alarms.contains(a) && a.id != id,
        without(alarms, id).len() <= alarms.len(),
        has_id(alarms, id) ==> without(alarms, id).len() < alarms.len(),
    decreases alarms.len(),
{
    let kept = without(alarms, id);
    alarms.lemma_filter_len(keeps(id));
    assert forall|a: AlarmView| kept.contains(a) <==> alarms.contains(a) && a.id != id by {
        if kept.contains(a) {
            let k = choose|k: int| 0 <= k < kept.len() && kept[k] == a;
            alarms.lemma_filter_pred(keeps(id), k);
            alarms.lemma_filter_contains_rev(keeps(id), a);
        }
        if alarms.contains(a) && a.id != id {
            let i = choose|i: int| 0 <= i < alarms.len() && alarms[i] == a;
            alarms.lemma_filter_contains(keeps(id), i);
        }
    }
    if has_id(kept, id) {
        let k = choose|k: int| 0 <= k < kept.len() && (#[trigger] kept[k]).id == id;
        alarms.lemma_filter_pred(keeps(id), k);
    }
    if has_id(alarms, id) {
        reveal(Seq::filter);
        let front = alarms.drop_last();
        law_delete_removes(front, id);
        if keeps(id)(alarms.last()) {
            let i = choose|i: int| 0 <= i < alarms.len() && (#[trigger] alarms[i]).id == id;
            assert(front[i].id == id);
        }
    }
}

/// Deleting leaves no identifier twice where none was there twice.
proof fn lemma_without_keeps_distinct(alarms: Seq<AlarmView>, id: Seq<char>)
    requires
        ids_distinct(alarms),
    ensures
        ids_distinct(without(alarms, id)),
    decreases alarms.len(),
{
    reveal(Seq::filter);
    if alarms.len() > 0 {
        let front = alarms.drop_last();
        let last = alarms.last();
        assert forall|i: int, j: int| 0 <= i < j < front.len() implies (#[trigger] front[i]).id != (
        #[trigger] front[j]).id by {
            assert(alarms[i].id != alarms[j].id);
        }
        lemma_without_keeps_distinct(front, id);
        law_delete_removes(front, id);
        let kept = without(front, id);
        if last.id != id {
            assert forall|i: int, j: int| 0 <= i < j < without(alarms, id).len() implies (
            #[trigger] without(alarms, id)[i]).id != (#[trigger] without(alarms, id)[j]).id by {
                if j == kept.len() {
                    assert(kept.contains(kept[i]));
                    assert(front.contains(kept[i]));
                    let k = choose|k: int| 0 <= k < front.len() && front[k] == kept[i];
                    assert(alarms[k].id != alarms[alarms.len() - 1].id);
                } else {
                    assert(kept[i].id != kept[j].id);
                }
            }
        }
    }
}

/// A valid registry stays valid when an alarm is toggled.
pub proof fn law_toggle_keeps_valid(alarms: Seq<AlarmView>, id: Seq<char>)
    requires
        registry_valid(alarms),
    ensures
        registry_valid(toggled(alarms, id)),
{
    lemma_first_with_id(alarms, id, 0);
    let after = toggled(alarms, id);
    assert forall|i: int, j: int| 0 <= i < j < after.len() implies (#[trigger] after[i]).id != (
    #[trigger] after[j]).id by {
        assert(alarms[i].id != alarms[j].id);
    }
    assert forall|i: int| 0 <= i < after.len() implies (#[trigger] after[i]).valid() by {
        assert(alarms[i].valid());
    }
}

/// A valid registry stays valid when alarms are deleted.
pub proof fn law_delete_keeps_valid(alarms: Seq<AlarmView>, id: Seq<char>)
    requires
        registry_valid(alarms),
    ensures
        registry_valid(without(alarms, id)),
{
    lemma_without_keeps_distinct(alarms, id);
    law_delete_removes(alarms, id);
    let kept = without(alarms, id);
    assert forall|i: int| 0 <= i < kept.len() implies (#[trigger] kept[i]).valid() by {
        assert(kept.contains(kept[i]));
        assert(alarms.contains(kept[i]));
        let k = choose|k: int| 0 <= k < alarms.len() && alarms[k] == kept[i];
        assert(alarms[k].valid());
    }
}

/// A valid registry stays valid when an alarm is created for a time of day
/// under an identifier that no alarm has yet.
pub proof fn law_create_keeps_valid(
    alarms: Seq<AlarmView>,
    id: Seq<char>,
    time: Seq<char>,
    playlist_name: Seq<char>,
    playlist_uri: Seq<char>,
    volume: u8,
    days: Seq<Seq<char>>,
    fade_in: bool,
    fade_in_duration: u16,
)
    requires
        registry_valid(alarms),
        is_time_of_day(time),
        !has_id(alarms, id),
    ensures
        registry_valid(
            alarms.push(
                new_alarm(
                    id,
                    time,
                    playlist_name,
                    playlist_uri,
                    volume,
                    days,
                    fade_in,
                    fade_in_duration,
                ),
            ),
        ),
{
    lemma_new_alarm_valid(
        id,
        time,
        playlist_name,
        playlist_uri,
        volume,
        days,
        fade_in,
        fade_in_duration,
    );
    let grown = alarms.push(
        new_alarm(id, time, playlist_name, playlist_uri, volume, days, fade_in, fade_in_duration),
    );
    assert forall|i: int, j: int| 0 <= i < j < grown.len() implies (#[trigger] grown[i]).id != (
    #[trigger] grown[j]).id by {
        if j == alarms.len() {
            assert(alarms[i].id != id);
        } else {
            assert(alarms[i].id != alarms[j].id);
        }
    }
    assert forall|i: int| 0 <= i < grown.len() implies (#[trigger] grown[i]).valid() by {
        if i < alarms.len() {
            assert(alarms[i].valid());
        }
    }
}

/// The alarm that rings is one of the registry's alarms, it is due, and no
/// alarm before it is due. Where none rings, no alarm is due.
pub proof fn law_first_due_rings(alarms: Seq<AlarmView>, now: Moment)
    ensures
        due_alarm(alarms, now) matches Some(a) ==> is_due(a, now) && exists|i: int|
            0 <= i < alarms.len() && #[trigger] alarms[i] == a && forall|j: int|
                0 <= j < i ==> !is_due(#[trigger] alarms[j], now),
        due_alarm(alarms, now) is None <==> forall|i: int|
            0 <= i < alarms.len() ==> !is_due(#[trigger] alarms[i], now),
{
    lemma_first_due(alarms, now, 0);
    match first_due(alarms, now, 0) {
        Some(i) => {
            assert(alarms[i] == alarms[i]);
        },
        None => {},
    }
}

/// An alarm that is switched on and names no day is due on every day at the
/// minute that it is set to, so at that minute some alarm rings: this one,
/// where no alarm before it is due. An alarm that is switched off is never
/// due, and never the one that rings.
pub proof fn law_daily_alarm(alarms: Seq<AlarmView>, now: Moment, i: int)
    requires
        0 <= i < alarms.len(),
    ensures
        alarms[i].active && alarms[i].days.len() == 0 && alarms[i].time == now.time@.hhmm()
            ==> is_due(alarms[i], now) && due_alarm(alarms, now) is Some,
        is_due(alarms[i], now) && (forall|j: int| 0 <= j < i ==> !is_due(#[trigger] alarms[j], now))
            ==> due_alarm(alarms, now) == Some(alarms[i]),
        !alarms[i].active ==> !is_due(alarms[i], now) && due_alarm(alarms, now) != Some(alarms[i]),
{
    lemma_first_due(alarms, now, 0);
    if is_due(alarms[i], now) && (forall|j: int| 0 <= j < i ==> !is_due(#[trigger] alarms[j], now)) {
        lemma_first_due_found(alarms, now, 0, i);
    }
}

/// An alarm that is switched on and names one day is due at the minute that
/// it is set to on that day, and on no other day.
pub proof fn law_one_day_alarm(alarm: AlarmView, day: Weekday, now: Moment)
    requires
        alarm.active,
        alarm.days == seq![label_of(day)],
        alarm.time == now.time@.hhmm(),
    ensures
        is_due(alarm, now) <==> now.weekday == day,
{
    lemma_labels_differ(day, now.weekday);
    if now.weekday == day {
        assert(alarm.days[0] == label_of(now.weekday));
    }
}

} // verus!
