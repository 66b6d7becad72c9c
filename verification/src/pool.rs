//! The voice pool: a fixed set of voices and the rule that picks the voice
//! for a new note.

use vstd::prelude::*;
use crate::fixed::in_range;
use crate::voice::{Voice, VoiceModel};

verus! {

/// The number of voices in a pool.
pub const VOICE_COUNT: usize = 16;

/// How far, in microhertz, the frequency of a voice may lie from the
/// frequency of a note that is turned off and still count as that note:
/// a tenth of a hertz.
pub const NOTE_OFF_TOLERANCE: i64 = 100_000;

/// Whether every voice is well formed.
pub open spec fn all_wf(voices: Seq<VoiceModel>) -> bool {
    forall|i: int| 0 <= i < voices.len() ==> (#[trigger] voices[i]).wf()
}

/// Whether a voice may be picked in a search for the oldest voice: every
/// voice may, unless the search is for releasing voices only.
pub open spec fn eligible(voice: VoiceModel, releasing_only: bool) -> bool {
    releasing_only ==> voice.releasing()
}

/// Whether some voice does not sound.
pub open spec fn any_silent(voices: Seq<VoiceModel>) -> bool {
    exists|j: int| 0 <= j < voices.len() && !(#[trigger] voices[j]).sounding()
}

/// Whether some voice is releasing.
pub open spec fn any_releasing(voices: Seq<VoiceModel>) -> bool {
    exists|j: int| 0 <= j < voices.len() && (#[trigger] voices[j]).releasing()
}

/// Whether `i` is the first voice that does not sound.
pub open spec fn is_first_silent(voices: Seq<VoiceModel>, i: int) -> bool {
    &&& 0 <= i < voices.len()
    &&& !voices[i].sounding()
    &&& forall|j: int| 0 <= j < i ==> (#[trigger] voices[j]).sounding()
}

/// Whether `i` is the oldest among the first `n` voices that are eligible:
/// no eligible voice is older, and none before it is as old.
pub open spec fn is_oldest_of(voices: Seq<VoiceModel>, n: int, i: int, releasing_only: bool)
    -> bool {
    &&& 0 <= i < n
    &&& eligible(voices[i], releasing_only)
    &&& forall|j: int|
        0 <= j < n && eligible(#[trigger] voices[j], releasing_only) ==> voices[j].age
            <= voices[i].age
    &&& forall|j: int|
        0 <= j < i && eligible(#[trigger] voices[j], releasing_only) ==> voices[j].age
            < voices[i].age
}

/// Whether `i` is the oldest voice of all.
pub open spec fn is_oldest(voices: Seq<VoiceModel>, i: int) -> bool {
    is_oldest_of(voices, voices.len() as int, i, false)
}

/// Whether `i` is the oldest releasing voice.
pub open spec fn is_oldest_releasing(voices: Seq<VoiceModel>, i: int) -> bool {
    is_oldest_of(voices, voices.len() as int, i, true)
}

/// Whether `i` is the voice that a new note gets. In this order: the first
/// voice that does not sound; else the oldest releasing voice; else the
/// oldest voice. Of voices of the same age the first counts as the oldest.
pub open spec fn is_allocation(voices: Seq<VoiceModel>, i: int) -> bool {
    if any_silent(voices) {
        is_first_silent(voices, i)
    } else if any_releasing(voices) {
        is_oldest_releasing(voices, i)
    } else {
        is_oldest(voices, i)
    }
}

/// The voice that a new note gets.
pub open spec fn allocation(voices: Seq<VoiceModel>) -> int {
    choose|i: int| is_allocation(voices, i)
}

/// Whether two frequencies lie less than the tolerance apart.
pub open spec fn near(a: int, b: int) -> bool {
    -NOTE_OFF_TOLERANCE < a - b < NOTE_OFF_TOLERANCE
}

/// The voices after the note at `frequency` has been turned off: every
/// voice whose frequency now lies near it has been turned off.
pub open spec fn released(voices: Seq<VoiceModel>, frequency: int) -> Seq<VoiceModel> {
    Seq::new(
        voices.len(),
        |i: int|
            if near(voices[i].glide.current, frequency) {
                voices[i].note_off()
            } else {
                voices[i]
            },
    )
}

/// The voices after every sounding voice has been turned off.
pub open spec fn stopped(voices: Seq<VoiceModel>) -> Seq<VoiceModel> {
    Seq::new(
        voices.len(),
        |i: int|
            if voices[i].sounding() {
                voices[i].note_off()
            } else {
                voices[i]
            },
    )
}

/// The voices with the waveform that `code` selects.
pub open spec fn with_waveform(voices: Seq<VoiceModel>, code: int) -> Seq<VoiceModel> {
    Seq::new(voices.len(), |i: int| voices[i].with_waveform(code))
}

/// The voices with new envelope times and sustain level.
pub open spec fn with_adsr(
    voices: Seq<VoiceModel>,
    attack: int,
    decay: int,
    sustain: int,
    release: int,
) -> Seq<VoiceModel> {
    Seq::new(voices.len(), |i: int| voices[i].with_adsr(attack, decay, sustain, release))
}

/// The voices with a new detune.
pub open spec fn with_detune(voices: Seq<VoiceModel>, cents: int) -> Seq<VoiceModel> {
    Seq::new(voices.len(), |i: int| voices[i].with_detune(cents))
}

/// The voices with a new glide time.
pub open spec fn with_glide_time(voices: Seq<VoiceModel>, ms: int) -> Seq<VoiceModel> {
    Seq::new(voices.len(), |i: int| voices[i].with_glide_time(ms))
}

/// The voices after a note has been turned on: the voice that the rule
/// picks has taken the note, the others are as they were.
pub open spec fn triggered(voices: Seq<VoiceModel>, frequency: int, velocity: int) -> Seq<
    VoiceModel,
> {
    let i = allocation(voices);
    voices.update(i, voices[i].note_on(frequency, velocity))
}

/// The voices and the buffer after the first `n` voices have processed the
/// buffer, one after the other.
pub open spec fn mixed(voices: Seq<VoiceModel>, buffer: Seq<i64>, n: nat) -> (
    Seq<VoiceModel>,
    Seq<i64>,
)
    decreases n,
{
    if n == 0 {
        (voices, buffer)
    } else {
        let (before, sum) = mixed(voices, buffer, (n - 1) as nat);
        let (voice, next) = before[n - 1].render(sum);
        (before.update(n - 1, voice), next)
    }
}

/// The voices and the buffer after every voice has processed the buffer.
pub open spec fn rendered(voices: Seq<VoiceModel>, buffer: Seq<i64>) -> (
    Seq<VoiceModel>,
    Seq<i64>,
) {
    mixed(voices, buffer, voices.len())
}

/// The rule picks at most one voice.
pub proof fn lemma_allocation_is_unique(voices: Seq<VoiceModel>, i: int, j: int)
    requires
        is_allocation(voices, i),
        is_allocation(voices, j),
    ensures
        i == j,
        i == allocation(voices),
{
    // Of two picks the earlier one is eligible wherever the later one is,
    // so the later one would have to be older than a voice that is no
    // younger than itself.
    if i < j {
        assert(eligible(voices[i], false));
    } else if j < i {
        assert(eligible(voices[j], false));
    }
}

/// In a pool that is not empty the rule picks a voice.
pub proof fn lemma_allocation_exists(voices: Seq<VoiceModel>)
    requires
        voices.len() > 0,
    ensures
        is_allocation(voices, allocation(voices)),
        0 <= allocation(voices) < voices.len(),
{
    if any_silent(voices) {
        let i = first_silent_below(voices, voices.len() as int);
        lemma_first_silent_below(voices, voices.len() as int);
        assert(is_allocation(voices, i));
    } else if any_releasing(voices) {
        lemma_oldest_below(voices, voices.len() as int, true);
        let i = oldest_below(voices, voices.len() as int, true);
        assert(is_allocation(voices, i));
    } else {
        lemma_oldest_below(voices, voices.len() as int, false);
        let i = oldest_below(voices, voices.len() as int, false);
        assert(eligible(voices[0], false));
        assert(is_allocation(voices, i));
    }
}

/// The first of the first `n` voices that does not sound, or -1.
pub open spec fn first_silent_below(voices: Seq<VoiceModel>, n: int) -> int
    decreases n,
{
    if n <= 0 {
        -1
    } else {
        let before = first_silent_below(voices, n - 1);
        if before >= 0 {
            before
        } else if !voices[n - 1].sounding() {
            n - 1
        } else {
            -1
        }
    }
}

/// The oldest eligible voice among the first `n`, or -1.
pub open spec fn oldest_below(voices: Seq<VoiceModel>, n: int, releasing_only: bool) -> int
    decreases n,
{
    if n <= 0 {
        -1
    } else {
        let before = oldest_below(voices, n - 1, releasing_only);
        if !eligible(voices[n - 1], releasing_only) {
            before
        } else if before >= 0 && voices[before].age >= voices[n - 1].age {
            before
        } else {
            n - 1
        }
    }
}

/// The search for the first silent voice finds it, if there is one.
pub proof fn lemma_first_silent_below(voices: Seq<VoiceModel>, n: int)
    requires
        0 <= n <= voices.len(),
    ensures
        ({
            let i = first_silent_below(voices, n);
            if i >= 0 {
                &&& 0 <= i < n
                &&& !voices[i].sounding()
                &&& forall|j: int| 0 <= j < i ==> (#[trigger] voices[j]).sounding()
            } else {
                forall|j: int| 0 <= j < n ==> (#[trigger] voices[j]).sounding()
            }
        }),
    decreases n,
{
    if n > 0 {
        lemma_first_silent_below(voices, n - 1);
    }
}

/// The search for the oldest eligible voice finds it, if there is one.
pub proof fn lemma_oldest_below(voices: Seq<VoiceModel>, n: int, releasing_only: bool)
    requires
        0 <= n <= voices.len(),
    ensures
        ({
            let i = oldest_below(voices, n, releasing_only);
            if i >= 0 {
                is_oldest_of(voices, n, i, releasing_only)
            } else {
                forall|j: int| 0 <= j < n ==> !eligible(#[trigger] voices[j], releasing_only)
            }
        }),
    decreases n,
{
    if n > 0 {
        lemma_oldest_below(voices, n - 1, releasing_only);
    }
}

/// When every voice is on and none is releasing, a new note takes the
/// oldest voice: no voice is older than the one picked. The picked voice
/// then heads for the new note's frequency at the new note's velocity,
/// with its envelope in the attack from the level it had, and its age is
/// 0. Every other voice is as it was.
pub proof fn lemma_steals_oldest_voice(voices: Seq<VoiceModel>, frequency: int, velocity: int)
    requires
        voices.len() > 0,
        all_wf(voices),
        forall|j: int| 0 <= j < voices.len() ==> (#[trigger] voices[j]).active,
        -0x8000_0000_0000_0000 <= frequency <= 0x7fff_ffff_ffff_ffff,
    ensures
        ({
            let i = allocation(voices);
            let after = triggered(voices, frequency, velocity);
            &&& 0 <= i < voices.len()
            &&& forall|j: int| 0 <= j < voices.len() ==> (#[trigger] voices[j]).age <= voices[i].age
            &&& after.len() == voices.len()
            &&& after[i] == voices[i].note_on(frequency, velocity)
            &&& after[i].glide.target == frequency
            &&& after[i].velocity == velocity
            &&& after[i].envelope.stage is Attack
            &&& after[i].envelope.level == voices[i].envelope.level
            &&& after[i].age == 0
            &&& after[i].active
            &&& forall|j: int| 0 <= j < voices.len() && j != i ==> after[j] == voices[j]
        }),
{
    lemma_allocation_exists(voices);
    let i = allocation(voices);
    assert(!any_silent(voices));
    assert(!any_releasing(voices));
    assert(is_oldest(voices, i));
    assert forall|j: int| 0 <= j < voices.len() implies (#[trigger] voices[j]).age
        <= voices[i].age by {
        assert(eligible(voices[j], false));
    }
    voices[i].lemma_note_on_takes_over(frequency, velocity);
}

/// When every voice sounds and some are releasing, a new note takes a
/// releasing voice, and of those the oldest, whatever the ages of the
/// voices that are still on.
pub proof fn lemma_prefers_releasing_voice(voices: Seq<VoiceModel>)
    requires
        !any_silent(voices),
        any_releasing(voices),
    ensures
        ({
            let i = allocation(voices);
            &&& 0 <= i < voices.len()
            &&& voices[i].releasing()
            &&& forall|j: int|
                0 <= j < voices.len() && (#[trigger] voices[j]).releasing() ==> voices[j].age
                    <= voices[i].age
        }),
{
    lemma_allocation_exists(voices);
    let i = allocation(voices);
    assert(is_oldest_releasing(voices, i));
    assert forall|j: int|
        0 <= j < voices.len() && (#[trigger] voices[j]).releasing() implies voices[j].age
        <= voices[i].age by {
        assert(eligible(voices[j], true));
    }
}

/// A voice that does not sound is picked before any other.
pub proof fn lemma_prefers_silent_voice(voices: Seq<VoiceModel>)
    requires
        any_silent(voices),
    ensures
        ({
            let i = allocation(voices);
            &&& 0 <= i < voices.len()
            &&& !voices[i].sounding()
            &&& forall|j: int| 0 <= j < i ==> (#[trigger] voices[j]).sounding()
        }),
{
    lemma_allocation_exists(voices);
}

/// Voices of which none sounds leave every buffer as it is, and stay as
/// they are.
pub proof fn lemma_silent_voices_add_nothing(voices: Seq<VoiceModel>, buffer: Seq<i64>, n: nat)
    requires
        n <= voices.len(),
        forall|j: int| 0 <= j < voices.len() ==> !(#[trigger] voices[j]).sounding(),
    ensures
        mixed(voices, buffer, n) == (voices, buffer),
    decreases n,
{
    if n > 0 {
        lemma_silent_voices_add_nothing(voices, buffer, (n - 1) as nat);
        assert(!voices[n - 1].sounding());
        assert(voices.update(n - 1, voices[n - 1]) =~= voices);
    }
}

/// Voices leave a buffer whose samples lie inside the signal range with
/// its samples inside the signal range, and as long as it was.
pub proof fn lemma_mixed_in_range(voices: Seq<VoiceModel>, buffer: Seq<i64>, n: nat)
    requires
        n <= voices.len(),
        in_range(buffer),
    ensures
        in_range(mixed(voices, buffer, n).1),
        mixed(voices, buffer, n).1.len() == buffer.len(),
        mixed(voices, buffer, n).0.len() == voices.len(),
    decreases n,
{
    if n > 0 {
        lemma_mixed_in_range(voices, buffer, (n - 1) as nat);
        let (before, sum) = mixed(voices, buffer, (n - 1) as nat);
        before[n - 1].aged().lemma_run_in_range(sum, sum.len());
    }
}

/// A pool of voices.
pub struct VoicePool {
    voices: Vec<Voice>,
}

impl View for VoicePool {
    type V = Seq<VoiceModel>;

    closed spec fn view(&self) -> Seq<VoiceModel> {
        Seq::new(self.voices@.len(), |i: int| self.voices@[i]@)
    }
}

impl VoicePool {
    /// Whether the pool holds its full count of voices, each well formed.
    pub open spec fn wf(&self) -> bool {
        &&& self@.len() == VOICE_COUNT
        &&& all_wf(self@)
    }

    /// A pool of new voices for `sample_rate` samples per second.
    pub fn new(sample_rate: u32) -> (r: VoicePool)
        ensures
            r.wf(),
            forall|i: int|
                0 <= i < VOICE_COUNT ==> #[trigger] r@[i] == VoiceModel::fresh(sample_rate as int),
    {
        let mut voices: Vec<Voice> = Vec::with_capacity(VOICE_COUNT);
        let mut i: usize = 0;
        while i < VOICE_COUNT
            invariant
                i <= VOICE_COUNT,
                voices@.len() == i,
                forall|j: int|
                    0 <= j < i ==> (#[trigger] voices@[j])@ == VoiceModel::fresh(
                        sample_rate as int,
                    ),
                forall|j: int| 0 <= j < i ==> (#[trigger] voices@[j])@.wf(),
            decreases VOICE_COUNT - i,
        {
            voices.push(Voice::new(sample_rate));
            i += 1;
        }
        VoicePool { voices }
    }

    /// The voice at place `i`, if the pool has one there.
    pub fn voice(&self, i: usize) -> (r: Option<&Voice>)
        ensures
            match r {
                Some(voice) => i < self@.len() && voice@ == self@[i as int],
                None => i >= self@.len(),
            },
    {
        if i < self.voices.len() {
            Some(&self.voices[i])
        } else {
            None
        }
    }

    /// The first voice that does not sound, if there is one.
    fn first_silent(&self) -> (r: Option<usize>)
        ensures
            match r {
                Some(i) => is_first_silent(self@, i as int),
                None => !any_silent(self@),
            },
    {
        let n: usize = self.voices.len();
        let mut i: usize = 0;
        while i < n
            invariant
                i <= n,
                n == self@.len(),
                n == self.voices@.len(),
                forall|j: int| 0 <= j < i ==> (#[trigger] self@[j]).sounding(),
            decreases n - i,
        {
            if !self.voices[i].is_active() {
                return Some(i);
            }
            i += 1;
        }
        None
    }

    /// The oldest voice among those that are eligible, if there is one.
    fn oldest(&self, releasing_only: bool) -> (r: Option<usize>)
        ensures
            match r {
                Some(i) => is_oldest_of(self@, self@.len() as int, i as int, releasing_only),
                None => forall|j: int|
                    0 <= j < self@.len() ==> !eligible(#[trigger] self@[j], releasing_only),
            },
    {
        let n: usize = self.voices.len();
        let mut best: Option<usize> = None;
        let mut best_age: u64 = 0;
        let mut i: usize = 0;
        while i < n
            invariant
                i <= n,
                n == self@.len(),
                n == self.voices@.len(),
                match best {
                    Some(b) => is_oldest_of(self@, i as int, b as int, releasing_only) && best_age
                        == self@[b as int].age,
                    None => forall|j: int|
                        0 <= j < i ==> !eligible(#[trigger] self@[j], releasing_only),
                },
            decreases n - i,
        {
            let voice = &self.voices[i];
            if !releasing_only || voice.is_releasing() {
                let age: u64 = voice.get_age();
                if best.is_none() || age > best_age {
                    best = Some(i);
                    best_age = age;
                }
            }
            i += 1;
        }
        best
    }

    /// The voice that a new note gets.
    pub fn allocate(&self) -> (i: usize)
        requires
            self.wf(),
        ensures
            is_allocation(self@, i as int),
            i == allocation(self@),
            i < VOICE_COUNT,
    {
        let mut picked: Option<usize> = self.first_silent();
        if picked.is_none() {
            picked = self.oldest(true);
            if picked.is_none() {
                picked = self.oldest(false);
            }
        }
        proof {
            assert(eligible(self@[0], false));
            if picked is Some {
                let i = picked->0 as int;
                if !any_silent(self@) && !any_releasing(self@) {
                    assert forall|j: int| 0 <= j < self@.len() implies !eligible(
                        #[trigger] self@[j],
                        true,
                    ) by {}
                }
                if !any_silent(self@) && any_releasing(self@) {
                    let w = choose|j: int| 0 <= j < self@.len() && (#[trigger] self@[j]).releasing();
                    assert(eligible(self@[w], true));
                }
                lemma_allocation_is_unique(self@, i, i);
            }
        }
        match picked {
            Some(i) => i,
            None => 0,
        }
    }

    /// Turns a note on in the voice that the rule picks.
    pub fn note_on(&mut self, frequency: i64, velocity: i64)
        requires
            old(self).wf(),
        ensures
            final(self)@ == triggered(old(self)@, frequency as int, velocity as int),
            final(self).wf(),
    {
        let i: usize = self.allocate();
        self.voices[i].note_on(frequency, velocity);
        assert(self@ =~= triggered(old(self)@, frequency as int, velocity as int));
    }

    /// Turns off every voice whose frequency now lies near `frequency`.
    pub fn note_off(&mut self, frequency: i64)
        requires
            old(self).wf(),
        ensures
            final(self)@ == released(old(self)@, frequency as int),
            final(self).wf(),
    {
        let n: usize = self.voices.len();
        let mut i: usize = 0;
        while i < n
            invariant
                i <= n,
                n == VOICE_COUNT,
                self.voices@.len() == n,
                old(self)@.len() == n,
                all_wf(self@),
                forall|j: int|
                    0 <= j < i ==> #[trigger] self@[j] == released(old(self)@, frequency as int)[j],
                forall|j: int| i <= j < n ==> #[trigger] self@[j] == old(self)@[j],
            decreases n - i,
        {
            let ghost before = self@;
            assert(before[i as int].wf());
            let current: i64 = self.voices[i].get_frequency();
            let gap: i128 = current as i128 - frequency as i128;
            if -(NOTE_OFF_TOLERANCE as i128) < gap && gap < NOTE_OFF_TOLERANCE as i128 {
                self.voices[i].note_off();
            }
            assert forall|j: int| 0 <= j < n && j != i implies #[trigger] self@[j] == before[j] by {}
            i += 1;
        }
        assert(self@ =~= released(old(self)@, frequency as int));
    }

    /// Turns off every voice that sounds.
    pub fn stop_all(&mut self)
        requires
            old(self).wf(),
        ensures
            final(self)@ == stopped(old(self)@),
            final(self).wf(),
    {
        let n: usize = self.voices.len();
        let mut i: usize = 0;
        while i < n
            invariant
                i <= n,
                n == VOICE_COUNT,
                self.voices@.len() == n,
                old(self)@.len() == n,
                all_wf(self@),
                forall|j: int| 0 <= j < i ==> #[trigger] self@[j] == stopped(old(self)@)[j],
                forall|j: int| i <= j < n ==> #[trigger] self@[j] == old(self)@[j],
            decreases n - i,
        {
            let ghost before = self@;
            assert(before[i as int].wf());
            if self.voices[i].is_active() {
                self.voices[i].note_off();
            }
            assert forall|j: int| 0 <= j < n && j != i implies #[trigger] self@[j] == before[j] by {}
            i += 1;
        }
        assert(self@ =~= stopped(old(self)@));
    }

    /// Selects the waveform of every voice by its code.
    pub fn set_waveform(&mut self, waveform: u8)
        requires
            old(self).wf(),
        ensures
            final(self)@ == with_waveform(old(self)@, waveform as int),
            final(self).wf(),
    {
        let n: usize = self.voices.len();
        let mut i: usize = 0;
        while i < n
            invariant
                i <= n,
                n == VOICE_COUNT,
                self.voices@.len() == n,
                old(self)@.len() == n,
                all_wf(self@),
                forall|j: int|
                    0 <= j < i ==> #[trigger] self@[j] == with_waveform(old(self)@, waveform as int)[j],
                forall|j: int| i <= j < n ==> #[trigger] self@[j] == old(self)@[j],
            decreases n - i,
        {
            let ghost before = self@;
            assert(before[i as int].wf());
            self.voices[i].set_waveform(waveform);
            assert forall|j: int| 0 <= j < n && j != i implies #[trigger] self@[j] == before[j] by {}
            i += 1;
        }
        assert(self@ =~= with_waveform(old(self)@, waveform as int));
    }

    /// Sets the envelope of every voice: times in milliseconds, sustain level
    /// from 0 to `UNIT`.
    pub fn set_adsr(&mut self, attack: i64, decay: i64, sustain: i64, release: i64)
        requires
            old(self).wf(),
        ensures
            final(self)@ == with_adsr(
                old(self)@,
                attack as int,
                decay as int,
                sustain as int,
                release as int,
            ),
            final(self).wf(),
    {
        let n: usize = self.voices.len();
        let mut i: usize = 0;
        while i < n
            invariant
                i <= n,
                n == VOICE_COUNT,
                self.voices@.len() == n,
                old(self)@.len() == n,
                all_wf(self@),
                forall|j: int|
                    0 <= j < i ==> #[trigger] self@[j] == with_adsr(
                old(self)@,
                attack as int,
                decay as int,
                sustain as int,
                release as int,
            )[j],
                forall|j: int| i <= j < n ==> #[trigger] self@[j] == old(self)@[j],
            decreases n - i,
        {
            let ghost before = self@;
            assert(before[i as int].wf());
            self.voices[i].set_adsr(attack, decay, sustain, release);
            assert forall|j: int| 0 <= j < n && j != i implies #[trigger] self@[j] == before[j] by {}
            i += 1;
        }
        assert(self@ =~= with_adsr(
                old(self)@,
                attack as int,
                decay as int,
                sustain as int,
                release as int,
            ));
    }

    /// Sets the detune of every voice, in cents.
    pub fn set_detune(&mut self, cents: i64)
        requires
            old(self).wf(),
        ensures
            final(self)@ == with_detune(old(self)@, cents as int),
            final(self).wf(),
    {
        let n: usize = self.voices.len();
        let mut i: usize = 0;
        while i < n
            invariant
                i <= n,
                n == VOICE_COUNT,
                self.voices@.len() == n,
                old(self)@.len() == n,
                all_wf(self@),
                forall|j: int|
                    0 <= j < i ==> #[trigger] self@[j] == with_detune(old(self)@, cents as int)[j],
                forall|j: int| i <= j < n ==> #[trigger] self@[j] == old(self)@[j],
            decreases n - i,
        {
            let ghost before = self@;
            assert(before[i as int].wf());
            self.voices[i].set_detune(cents);
            assert forall|j: int| 0 <= j < n && j != i implies #[trigger] self@[j] == before[j] by {}
            i += 1;
        }
        assert(self@ =~= with_detune(old(self)@, cents as int));
    }

    /// Sets the glide time of every voice, in milliseconds.
    pub fn set_glide_time(&mut self, time_ms: i64)
        requires
            old(self).wf(),
        ensures
            final(self)@ == with_glide_time(old(self)@, time_ms as int),
            final(self).wf(),
    {
        let n: usize = self.voices.len();
        let mut i: usize = 0;
        while i < n
            invariant
                i <= n,
                n == VOICE_COUNT,
                self.voices@.len() == n,
                old(self)@.len() == n,
                all_wf(self@),
                forall|j: int|
                    0 <= j < i ==> #[trigger] self@[j] == with_glide_time(old(self)@, time_ms as int)[j],
                forall|j: int| i <= j < n ==> #[trigger] self@[j] == old(self)@[j],
            decreases n - i,
        {
            let ghost before = self@;
            assert(before[i as int].wf());
            self.voices[i].set_glide_time(time_ms);
            assert forall|j: int| 0 <= j < n && j != i implies #[trigger] self@[j] == before[j] by {}
            i += 1;
        }
        assert(self@ =~= with_glide_time(old(self)@, time_ms as int));
    }

    /// Lets every voice add itself to `output`, one after the other.
    pub fn process(&mut self, output: &mut Vec<i64>)
        requires
            old(self).wf(),
        ensures
            final(self)@ == rendered(old(self)@, old(output)@).0,
            final(output)@ == rendered(old(self)@, old(output)@).1,
            final(self).wf(),
            final(output)@.len() == old(output)@.len(),
    {
        let n: usize = self.voices.len();
        let mut i: usize = 0;
        while i < n
            invariant
                i <= n,
                n == VOICE_COUNT,
                self.voices@.len() == n,
                all_wf(self@),
                output@.len() == old(output)@.len(),
                self@ == mixed(old(self)@, old(output)@, i as nat).0,
                output@ == mixed(old(self)@, old(output)@, i as nat).1,
            decreases n - i,
        {
            assert(self@[i as int].wf());
            if self.voices[i].is_active() {
                self.voices[i].process(output);
            }
            assert(self@ =~= mixed(old(self)@, old(output)@, (i + 1) as nat).0);
            i += 1;
        }
    }
}

} // verus!
