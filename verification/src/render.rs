//! Filling the host's output channels for one processing block.
//!
//! The sample type is left open: the host glue renders `f32` samples, drawing
//! one frame per sample position from the sounding voice.
use vstd::prelude::*;

verus! {

/// The frames of the voice, if one sounds.
pub open spec fn voice_view<T>(voice: &Option<Vec<T>>) -> Option<Seq<T>> {
    match voice {
        Some(v) => Some(v@),
        None => None,
    }
}

/// The sample written at position `j`: the voice's frame there, or silence
/// when no voice sounds.
pub open spec fn output_at<T>(voice: Option<Seq<T>>, j: int, silence: T) -> T {
    match voice {
        Some(frames) => frames[j],
        None => silence,
    }
}

/// A channel after rendering `samples` positions into `old`: the first
/// `samples` positions carry the output, the rest of the channel is untouched.
pub open spec fn rendered_channel<T>(old: Seq<T>, samples: int, voice: Option<Seq<T>>, silence: T) -> Seq<T> {
    Seq::new(old.len(), |j: int| if j < samples { output_at(voice, j, silence) } else { old[j] })
}

/// Writes the first `samples` positions of one output channel.
pub fn render_channel<T: Copy>(out: &mut Vec<T>, samples: usize, voice: &Option<Vec<T>>, silence: T)
    requires
        samples <= old(out)@.len(),
        voice matches Some(v) ==> samples <= v@.len(),
    ensures
        final(out)@ == rendered_channel(old(out)@, samples as int, voice_view(voice), silence),
        final(out)@.len() == old(out)@.len(),
        forall|j: int| 0 <= j < samples ==> #[trigger] final(out)@[j] == (match voice {
            Some(v) => v@[j],
            None => silence,
        }),
        forall|j: int| samples <= j < old(out)@.len() ==> #[trigger] final(out)@[j] == old(out)@[j],
{
    let mut j: usize = 0;
    while j < samples
        invariant
            j <= samples,
            samples <= out@.len(),
            voice matches Some(v) ==> samples <= v@.len(),
            out@.len() == old(out)@.len(),
            forall|k: int| 0 <= k < j ==> #[trigger] out@[k] == output_at(voice_view(voice), k, silence),
            forall|k: int| j <= k < out@.len() ==> #[trigger] out@[k] == old(out)@[k],
        decreases samples - j,
    {
        let value = match voice {
            Some(frames) => frames[j],
            None => silence,
        };
        out.set(j, value);
        j = j + 1;
    }
    proof {
        assert(out@ =~= rendered_channel(old(out)@, samples as int, voice_view(voice), silence));
    }
}

/// Renders one processing block: at every sample position below `samples`,
/// every output channel receives the voice's frame at that position, or
/// silence when no voice sounds. Positions past `samples` are left as they
/// were.
pub fn render_block<T: Copy>(outputs: &mut Vec<Vec<T>>, samples: usize, voice: &Option<Vec<T>>, silence: T)
    requires
        forall|c: int| 0 <= c < old(outputs)@.len() ==> samples <= #[trigger] old(outputs)@[c]@.len(),
        voice matches Some(v) ==> samples <= v@.len(),
    ensures
        final(outputs)@.len() == old(outputs)@.len(),
        forall|c: int|
            0 <= c < final(outputs)@.len() ==> #[trigger] final(outputs)@[c]@ == rendered_channel(
                old(outputs)@[c]@,
                samples as int,
                voice_view(voice),
                silence,
            ),
        forall|c: int, j: int|
            0 <= c < final(outputs)@.len() && 0 <= j < samples ==> #[trigger] final(outputs)@[c]@[j] == (
            match voice {
                Some(v) => v@[j],
                None => silence,
            }),
        forall|c: int, j: int|
            0 <= c < final(outputs)@.len() && samples <= j < old(outputs)@[c]@.len() ==> #[trigger] final(outputs)@[c]@[j]
                == old(outputs)@[c]@[j],
{
    let ghost start = outputs@;
    let count = outputs.len();
    let mut c: usize = 0;
    while c < count
        invariant
            c <= count,
            count == outputs@.len(),
            outputs@.len() == start.len(),
            voice matches Some(v) ==> samples <= v@.len(),
            forall|k: int| 0 <= k < start.len() ==> samples <= #[trigger] start[k]@.len(),
            forall|k: int|
                0 <= k < c ==> #[trigger] outputs@[k]@ == rendered_channel(
                    start[k]@,
                    samples as int,
                    voice_view(voice),
                    silence,
                ),
            forall|k: int| c <= k < outputs@.len() ==> #[trigger] outputs@[k] == start[k],
        decreases count - c,
    {
        render_channel(&mut outputs[c], samples, voice, silence);
        c = c + 1;
    }
}

/// All rendered channels carry the same signal: two channels agree at every
/// rendered position, whatever they held before.
pub proof fn lemma_channels_agree<T>(a: Seq<T>, b: Seq<T>, samples: int, voice: Option<Seq<T>>, silence: T, j: int)
    requires
        0 <= j < samples,
        samples <= a.len(),
        samples <= b.len(),
    ensures
        rendered_channel(a, samples, voice, silence)[j] == rendered_channel(b, samples, voice, silence)[j],
{
}

/// Without a voice the rendered positions are all silence.
pub proof fn lemma_no_voice_is_silent<T>(old: Seq<T>, samples: int, silence: T, j: int)
    requires
        0 <= j < samples <= old.len(),
    ensures
        rendered_channel(old, samples, None, silence)[j] == silence,
{
}

/// While a voice sounds, every rendered position of a channel holds the
/// voice's frame at that position, across the whole block.
pub proof fn lemma_voice_frames_rendered<T>(old: Seq<T>, samples: int, frames: Seq<T>, silence: T, j: int)
    requires
        0 <= j < samples <= old.len(),
    ensures
        rendered_channel(old, samples, Some(frames), silence)[j] == frames[j],
{
}

} // verus!
