//! The decisions of the real-time transcription worker: preparing captured audio
//! (mono, 16 kHz), batching it into requests, and suppressing repeated transcripts.
//!
//! The worker loop itself, which talks to the speech-recognition process, runs
//! outside the library and asks this state what to do with each event.
use super::pcm::{downsample, mix_to_mono, mixed_to_mono, resampled, resampled_len, ceil_div};
use crate::text::{
    char_is_whitespace, chars_of, is_white_space, lowercase_of, string_from_chars, to_lowercase,
    trim, trim_chars,
};
use vstd::prelude::*;

verus! {

broadcast use vstd::string::group_string_axioms;

/// The sample rate the speech recognizer expects.
pub const TARGET_SAMPLE_RATE: u32 = 16000;

/// How much audio, in milliseconds, is gathered before a transcription request.
pub const PUSH_CHUNK_MS: usize = 320;

/// The number of 16 kHz samples in one transcription request.
pub open spec fn push_chunk_len() -> int {
    5120
}

/// The number of 16 kHz samples in one transcription request:
/// `TARGET_SAMPLE_RATE * PUSH_CHUNK_MS / 1000`, at least one.
pub fn push_chunk_samples() -> (r: usize)
    ensures
        r == push_chunk_len(),
{
    let n = (TARGET_SAMPLE_RATE as usize * PUSH_CHUNK_MS) / 1000;
    if n < 1 {
        1
    } else {
        n
    }
}

/// Captured samples as the recognizer wants them: mixed to mono, then converted
/// to 16 kHz unless they already are.
pub open spec fn prepared_audio(samples: Seq<i16>, rate: u32, channels: u16) -> Seq<i16> {
    let mono = mixed_to_mono(samples, channels as int);
    if rate == TARGET_SAMPLE_RATE {
        mono
    } else {
        resampled(mono, rate as int, TARGET_SAMPLE_RATE as int)
    }
}

/// A chunk can be prepared: the channel count is known, it holds no samples or
/// its rate is known, and its prepared audio fits in memory.
pub open spec fn chunk_fits(samples: Seq<i16>, rate: u32, channels: u16) -> bool {
    &&& channels > 0
    &&& (rate > 0 || samples.len() == 0)
    &&& resampled_len(ceil_div(samples.len() as int, channels as int), rate as int, 16000) <= usize::MAX
}

/// Punctuation that does not distinguish two transcripts.
pub open spec fn is_dedup_punctuation(c: char) -> bool {
    c == '。' || c == '、' || c == '.' || c == ',' || c == '!' || c == '?' || c == '！' || c == '？'
}

/// A character that takes part in the comparison of transcripts.
pub open spec fn kept_for_dedup(c: char) -> bool {
    !is_white_space(c) && !is_dedup_punctuation(c)
}

/// The form in which two transcripts are compared: lower-cased, without white
/// space and without sentence punctuation.
pub open spec fn normalized_for_dedup(text: Seq<char>) -> Seq<char> {
    lowercase_of(text).filter(|c: char| kept_for_dedup(c))
}

/// Whether a transcript is passed on, given the normalized form of the last one
/// that was: it must hold more than white space and differ from the last one.
pub open spec fn transcript_is_new(last: Option<Seq<char>>, text: Seq<char>) -> bool {
    trim(text).len() > 0 && last != Some(normalized_for_dedup(text))
}

/// Adding prepared audio to the waiting audio: once a full request's worth is
/// waiting, all of it becomes a request and nothing waits any more.
pub open spec fn chunk_step(pending: Seq<i16>, incoming: Seq<i16>) -> (Option<Seq<i16>>, Seq<i16>) {
    let all = pending + incoming;
    if all.len() >= push_chunk_len() {
        (Some(all), Seq::empty())
    } else {
        (None, all)
    }
}

/// The requests made and the audio left waiting after a series of prepared chunks.
pub open spec fn run_chunks(pending: Seq<i16>, chunks: Seq<Seq<i16>>) -> (Seq<Seq<i16>>, Seq<i16>)
    decreases chunks.len(),
{
    if chunks.len() == 0 {
        (Seq::empty(), pending)
    } else {
        let (batches, rest) = run_chunks(pending, chunks.drop_last());
        let (b, p) = chunk_step(rest, chunks.last());
        match b {
            Some(batch) => (batches.push(batch), p),
            None => (batches, p),
        }
    }
}

/// No audio is lost, duplicated or reordered: the requests made, followed by the
/// audio still waiting, are exactly the waiting audio followed by every chunk, in
/// order. Every request holds at least a full request's worth, and less than
/// that is left waiting.
pub proof fn law_audio_is_conserved(pending: Seq<i16>, chunks: Seq<Seq<i16>>)
    requires
        pending.len() < push_chunk_len(),
    ensures
        run_chunks(pending, chunks).0.flatten() + run_chunks(pending, chunks).1 == pending
            + chunks.flatten(),
        forall|i: int|
            0 <= i < run_chunks(pending, chunks).0.len() ==> #[trigger] run_chunks(
                pending,
                chunks,
            ).0[i].len() >= push_chunk_len(),
        run_chunks(pending, chunks).1.len() < push_chunk_len(),
    decreases chunks.len(),
{
    broadcast use Seq::lemma_flatten_push;
    if chunks.len() > 0 {
        let init = chunks.drop_last();
        law_audio_is_conserved(pending, init);
        let (batches, rest) = run_chunks(pending, init);
        assert(chunks =~= init.push(chunks.last()));
        assert(chunks.flatten() =~= init.flatten() + chunks.last());
        let (b, p) = chunk_step(rest, chunks.last());
        match b {
            Some(batch) => {
                let last = chunks.last();
                assert(batch == rest + last);
                assert(p.len() == 0);
                assert(batches.push(batch).flatten() =~= batches.flatten() + batch);
                assert(batches.flatten() + (rest + last) =~= (batches.flatten() + rest) + last);
                assert((pending + init.flatten()) + last =~= pending + (init.flatten() + last));
                assert(batches.push(batch).flatten() + p =~= batches.push(batch).flatten());
                assert(batches.push(batch).flatten() + p =~= pending + chunks.flatten());
                assert forall|i: int| 0 <= i < batches.push(batch).len() implies #[trigger] batches.push(batch)[i].len() >= push_chunk_len() by {
                    if i < batches.len() {
                        assert(batches.push(batch)[i] == batches[i]);
                    }
                }
            },
            None => {
                let last = chunks.last();
                assert(p == rest + last);
                assert(batches.flatten() + (rest + last) =~= (batches.flatten() + rest) + last);
                assert((pending + init.flatten()) + last =~= pending + (init.flatten() + last));
                assert(batches.flatten() + p =~= pending + chunks.flatten());
            },
        }
    }
}

/// Once a transcript is passed on, a transcript that reads the same once
/// normalized is not passed on right after it.
pub proof fn law_repeat_is_suppressed(last: Option<Seq<char>>, text: Seq<char>, again: Seq<char>)
    requires
        transcript_is_new(last, text),
        normalized_for_dedup(again) == normalized_for_dedup(text),
    ensures
        !transcript_is_new(Some(normalized_for_dedup(text)), again),
{
}

/// Transcripts are compared lower-cased with white space and the sentence
/// punctuation 。 、 . , ! ? ！ ？ taken out and every other character kept in
/// order: the compared form holds none of those marks.
pub proof fn law_dedup_form_drops_punctuation(text: Seq<char>)
    ensures
        normalized_for_dedup(text) == lowercase_of(text).filter(
            |c: char|
                !is_white_space(c) && c != '。' && c != '、' && c != '.' && c != ',' && c != '!'
                    && c != '?' && c != '！' && c != '？',
        ),
        forall|i: int|
            0 <= i < normalized_for_dedup(text).len() ==> {
                let c = #[trigger] normalized_for_dedup(text)[i];
                &&& !is_white_space(c)
                &&& c != '。' && c != '、' && c != '.' && c != ',' && c != '!' && c != '?'
                &&& c != '！' && c != '？'
            },
{
    let kept = |c: char| kept_for_dedup(c);
    let listed = |c: char|
        !is_white_space(c) && c != '。' && c != '、' && c != '.' && c != ',' && c != '!' && c
            != '?' && c != '！' && c != '？';
    assert(kept =~= listed);
    assert forall|i: int| 0 <= i < normalized_for_dedup(text).len() implies listed(
        #[trigger] normalized_for_dedup(text)[i],
    ) by {
        lowercase_of(text).lemma_filter_pred(kept, i);
    }
}

/// The form in which two transcripts are compared.
pub fn normalize_text_for_dedup(text: &str) -> (r: String)
    ensures
        r@ == normalized_for_dedup(text@),
{
    let lower = to_lowercase(text);
    let chars = chars_of(lower.as_str());
    let mut out: Vec<char> = Vec::new();
    let mut i: usize = 0;
    while i < chars.len()
        invariant
            i <= chars.len(),
            chars@ == lowercase_of(text@),
            out@ == chars@.take(i as int).filter(|c: char| kept_for_dedup(c)),
        decreases chars.len() - i,
    {
        let c = chars[i];
        let punct = c == '。' || c == '、' || c == '.' || c == ',' || c == '!' || c == '?' || c
            == '！' || c == '？';
        if !char_is_whitespace(c) && !punct {
            out.push(c);
        }
        proof {
            assert(chars@.take(i + 1).drop_last() =~= chars@.take(i as int));
            reveal_with_fuel(Seq::filter, 1);
        }
        i = i + 1;
    }
    assert(chars@.take(chars@.len() as int) =~= chars@);
    string_from_chars(&out)
}

/// The state the transcription worker keeps between events: the capture format,
/// the prepared audio not yet sent, and the last transcript passed on.
pub struct BufferWorkerState {
    capture_sample_rate: u32,
    capture_channels: u16,
    pending: Vec<i16>,
    last_emitted_norm: Option<Vec<char>>,
}

impl BufferWorkerState {
    /// The capture sample rate the state was made for.
    pub closed spec fn rate(&self) -> u32 {
        self.capture_sample_rate
    }

    /// The capture channel count the state was made for.
    pub closed spec fn channels(&self) -> u16 {
        self.capture_channels
    }

    /// The prepared audio gathered since the last request.
    pub closed spec fn pending(&self) -> Seq<i16> {
        self.pending@
    }

    /// The normalized form of the last transcript passed on, if any.
    pub closed spec fn last_norm(&self) -> Option<Seq<char>> {
        match self.last_emitted_norm {
            Some(v) => Some(v@),
            None => None,
        }
    }

    /// Well-formedness: less than one request of audio waiting.
    pub closed spec fn wf(&self) -> bool {
        self.pending@.len() < push_chunk_len()
    }

    /// A fresh state for audio captured at `capture_sample_rate` Hz with
    /// `capture_channels` interleaved channels.
    pub fn new(capture_sample_rate: u32, capture_channels: u16) -> (r: Self)
        ensures
            r.wf(),
            r.rate() == capture_sample_rate,
            r.channels() == capture_channels,
            r.pending() == Seq::<i16>::empty(),
            r.last_norm() is None,
    {
        BufferWorkerState {
            capture_sample_rate,
            capture_channels,
            pending: Vec::new(),
            last_emitted_norm: None,
        }
    }

    /// A chunk of captured audio arrived. Its prepared form joins the waiting
    /// audio; once a full request's worth is waiting, all of it is handed back to
    /// be transcribed and the waiting audio starts afresh.
    pub fn on_audio_chunk(&mut self, samples: &[i16]) -> (r: Option<Vec<i16>>)
        requires
            old(self).wf(),
            chunk_fits(samples@, old(self).rate(), old(self).channels()),
        ensures
            final(self).wf(),
            final(self).rate() == old(self).rate(),
            final(self).channels() == old(self).channels(),
            final(self).last_norm() == old(self).last_norm(),
            (
                match r {
                    Some(batch) => Some(batch@),
                    None => None,
                },
                final(self).pending(),
            ) == chunk_step(
                old(self).pending(),
                prepared_audio(samples@, old(self).rate(), old(self).channels()),
            ),
    {
        let mono = mix_to_mono(samples, self.capture_channels);
        proof {
            super::pcm::lemma_ceil_div(samples@.len() as int, self.capture_channels as int, 0);
        }
        let prepared = if self.capture_sample_rate == TARGET_SAMPLE_RATE {
            mono
        } else {
            downsample(mono.as_slice(), self.capture_sample_rate, TARGET_SAMPLE_RATE)
        };
        let mut i: usize = 0;
        let ghost before = self.pending@;
        while i < prepared.len()
            invariant
                i <= prepared.len(),
                self.pending@ == before + prepared@.take(i as int),
                self.capture_channels > 0,
                self.capture_sample_rate == old(self).capture_sample_rate,
                self.capture_channels == old(self).capture_channels,
                self.last_emitted_norm == old(self).last_emitted_norm,
            decreases prepared.len() - i,
        {
            self.pending.push(prepared[i]);
            assert(prepared@.take(i + 1) =~= prepared@.take(i as int).push(prepared@[i as int]));
            i = i + 1;
        }
        assert(prepared@.take(prepared@.len() as int) =~= prepared@);
        if self.pending.len() >= push_chunk_samples() {
            let mut batch: Vec<i16> = Vec::new();
            std::mem::swap(&mut batch, &mut self.pending);
            Some(batch)
        } else {
            None
        }
    }

    /// The audio stream ended: whatever audio is waiting is handed back to be
    /// transcribed (none when nothing waits), and nothing waits afterwards.
    pub fn on_stream_end(&mut self) -> (r: Option<Vec<i16>>)
        requires
            old(self).wf(),
        ensures
            final(self).wf(),
            final(self).rate() == old(self).rate(),
            final(self).channels() == old(self).channels(),
            final(self).last_norm() == old(self).last_norm(),
            final(self).pending() == Seq::<i16>::empty(),
            old(self).pending().len() == 0 ==> r is None,
            old(self).pending().len() > 0 ==> (r matches Some(batch) && batch@ == old(self).pending()),
    {
        if self.pending.len() == 0 {
            None
        } else {
            let mut batch: Vec<i16> = Vec::new();
            std::mem::swap(&mut batch, &mut self.pending);
            Some(batch)
        }
    }

    /// Decides whether a transcript is passed on: it must hold more than white
    /// space and differ, once normalized, from the last one passed on, which it
    /// then becomes.
    pub fn accept_transcript(&mut self, text: &str) -> (r: bool)
        requires
            old(self).wf(),
        ensures
            final(self).wf(),
            final(self).rate() == old(self).rate(),
            final(self).channels() == old(self).channels(),
            final(self).pending() == old(self).pending(),
            r == transcript_is_new(old(self).last_norm(), text@),
            final(self).last_norm() == (if r {
                Some(normalized_for_dedup(text@))
            } else {
                old(self).last_norm()
            }),
    {
        let chars = chars_of(text);
        let trimmed = trim_chars(&chars);
        if trimmed.len() == 0 {
            return false;
        }
        let norm = chars_of(normalize_text_for_dedup(text).as_str());
        let same = match &self.last_emitted_norm {
            Some(last) => crate::text::chars_eq(last, &norm),
            None => false,
        };
        if same {
            return false;
        }
        self.last_emitted_norm = Some(norm);
        true
    }

    /// Decides, in order, which transcripts of one response are passed on.
    pub fn emit_transcription_results(&mut self, texts: &Vec<String>) -> (r: Vec<bool>)
        requires
            old(self).wf(),
        ensures
            final(self).wf(),
            final(self).rate() == old(self).rate(),
            final(self).channels() == old(self).channels(),
            final(self).pending() == old(self).pending(),
            r@.len() == texts@.len(),
            final(self).last_norm() == last_norm_after(old(self).last_norm(), texts@.map_values(|t: String| t@)),
            forall|i: int|
                0 <= i < r@.len() ==> #[trigger] r@[i] == transcript_is_new(
                    last_norm_after(old(self).last_norm(), texts@.map_values(|t: String| t@).take(i)),
                    texts@[i]@,
                ),
    {
        let ghost start = self.last_norm();
        let ghost views = texts@.map_values(|t: String| t@);
        let mut out: Vec<bool> = Vec::new();
        let mut i: usize = 0;
        while i < texts.len()
            invariant
                self.wf(),
                self.rate() == old(self).rate(),
                self.channels() == old(self).channels(),
                self.pending() == old(self).pending(),
                start == old(self).last_norm(),
                views == texts@.map_values(|t: String| t@),
                i <= texts.len(),
                out@.len() == i,
                self.last_norm() == last_norm_after(start, views.take(i as int)),
                forall|k: int|
                    0 <= k < i ==> #[trigger] out@[k] == transcript_is_new(
                        last_norm_after(start, views.take(k)),
                        texts@[k]@,
                    ),
            decreases texts.len() - i,
        {
            let ok = self.accept_transcript(texts[i].as_str());
            out.push(ok);
            assert(views.take(i + 1).drop_last() =~= views.take(i as int));
            i = i + 1;
        }
        assert(views.take(texts@.len() as int) =~= views);
        out
    }
}

/// The normalized form of the last transcript passed on after a series of
/// transcripts, starting from `last`.
pub open spec fn last_norm_after(last: Option<Seq<char>>, texts: Seq<Seq<char>>) -> Option<Seq<char>>
    decreases texts.len(),
{
    if texts.len() == 0 {
        last
    } else {
        let before = last_norm_after(last, texts.drop_last());
        if transcript_is_new(before, texts.last()) {
            Some(normalized_for_dedup(texts.last()))
        } else {
            before
        }
    }
}

} // verus!
