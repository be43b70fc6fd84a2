use j2v::transcription::pcm::{downsample, mix_to_mono};

fn reference_mix(pcm: &[i16], capture_channels: u16) -> Vec<i16> {
    if capture_channels == 1 {
        return pcm.to_vec();
    }
    let channels = capture_channels as usize;
    pcm.chunks(channels)
        .map(|frame| {
            let sum: i32 = frame.iter().map(|&s| s as i32).sum();
            (sum / channels as i32) as i16
        })
        .collect()
}

fn reference_downsample(samples: &[i16], from_rate: u32, to_rate: u32) -> Vec<i16> {
    if from_rate == to_rate {
        return samples.to_vec();
    }
    let ratio = from_rate as f64 / to_rate as f64;
    let out_len = (samples.len() as f64 / ratio).ceil() as usize;
    let mut out = Vec::with_capacity(out_len);
    let window = ratio.ceil() as usize;
    for index in 0..out_len {
        let start = (index as f64 * ratio) as usize;
        let end = (start + window).min(samples.len());
        if start >= samples.len() {
            break;
        }
        let sum: i32 = samples[start..end].iter().map(|&s| s as i32).sum();
        let count = (end - start).max(1) as i32;
        out.push((sum / count) as i16);
    }
    out
}

fn noise(n: usize, seed: u64) -> Vec<i16> {
    let mut x = seed;
    (0..n)
        .map(|_| {
            x = x.wrapping_mul(6364136223846793005).wrapping_add(1442695040888963407);
            (x >> 48) as i16
        })
        .collect()
}

#[test]
fn mix_stereo_to_mono() {
    assert_eq!(mix_to_mono(&[2, 4, -3, -4, 7], 2), vec![3, -3, 3]);
    assert_eq!(mix_to_mono(&[5, 6, 7], 1), vec![5, 6, 7]);
    assert_eq!(mix_to_mono(&[32767, 32767, -32768, -32768], 2), vec![32767, -32768]);
    assert_eq!(mix_to_mono(&[], 2), Vec::<i16>::new());
}

#[test]
fn mix_matches_reference() {
    for ch in 1..=6u16 {
        for n in [0usize, 1, 5, 64, 1001] {
            let s = noise(n, n as u64 + ch as u64);
            assert_eq!(mix_to_mono(&s, ch), reference_mix(&s, ch), "ch={ch} n={n}");
        }
    }
}

#[test]
fn downsample_examples() {
    assert_eq!(downsample(&[3, 6, 9, 12, 15, 18], 48000, 16000), vec![6, 15]);
    assert_eq!(downsample(&[1, 2, 3], 16000, 16000), vec![1, 2, 3]);
    assert_eq!(downsample(&[1, 2, 3], 48000, 0), Vec::<i16>::new());
    assert_eq!(downsample(&[], 0, 16000), Vec::<i16>::new());
    assert_eq!(downsample(&[-3, -4], 48000, 16000), vec![-3]);
    assert_eq!(downsample(&[10, 20], 8000, 16000), vec![10, 10, 20, 20]);
}

#[test]
fn downsample_matches_reference() {
    for (from, to) in [(48000u32, 16000u32), (44100, 16000), (22050, 16000), (96000, 16000), (8000, 16000), (11025, 16000), (32000, 16000)] {
        for n in [0usize, 1, 2, 3, 7, 160, 441, 4410, 48000] {
            let s = noise(n, (from as u64) ^ n as u64);
            assert_eq!(downsample(&s, from, to), reference_downsample(&s, from, to), "{from}->{to} n={n}");
        }
    }
}
