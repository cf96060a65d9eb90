use whisper::audio::{capture_args, decode_samples, Chunk, CHUNK_BYTES, SAMPLE_RATE};

/// Reads one block from `source`, `step` bytes at a time.
fn read_chunk(source: &[u8], step: usize) -> Vec<f32> {
    let mut chunk = Chunk::new();
    let mut at = 0;
    loop {
        let n = step.min(chunk.wanted()).min(source.len() - at);
        let more = chunk.feed(&source[at..at + n]);
        at += n;
        if !more {
            break;
        }
    }
    chunk.samples().into_iter().map(f32::from_bits).collect()
}

#[test]
fn le_blocos_f32_do_pipe() {
    let bytes: Vec<u8> = [1.0f32, 0.5, -0.5, 0.0]
        .iter()
        .flat_map(|v| v.to_le_bytes())
        .collect();
    let samples = read_chunk(&bytes, CHUNK_BYTES);
    assert_eq!(samples, vec![1.0, 0.5, -0.5, 0.0]);
}

#[test]
fn eof_retorna_vazio() {
    let samples = read_chunk(&[], CHUNK_BYTES);
    assert!(samples.is_empty());
}

#[test]
fn bytes_parciais_nao_quebram() {
    let mut bytes = 1.0f32.to_le_bytes().to_vec();
    bytes.push(0xAB);
    let samples = read_chunk(&bytes, CHUNK_BYTES);
    assert_eq!(samples, vec![1.0]);
}

#[test]
fn blocks_are_filled_over_several_reads() {
    let bytes: Vec<u8> = (0..2000u32).flat_map(|i| (i as f32).to_le_bytes()).collect();
    let samples = read_chunk(&bytes, 7);
    assert_eq!(samples.len(), CHUNK_BYTES / 4);
    assert_eq!(samples[799], 799.0);
    assert_eq!(CHUNK_BYTES / 4, SAMPLE_RATE as usize / 20);
}

#[test]
fn words_are_little_endian() {
    assert_eq!(decode_samples(&[0x78, 0x56, 0x34, 0x12, 0xff]), [0x1234_5678]);
    assert_eq!(decode_samples(&[0xff; 8]), [u32::MAX, u32::MAX]);
}

#[test]
fn recorder_arguments_name_the_source() {
    let plain = ["--raw", "--format", "f32", "--rate", "16000", "--channels", "1", "-"];
    assert_eq!(capture_args(None), plain);
    let with = capture_args(Some("mic"));
    assert_eq!(&with[..8], plain);
    assert_eq!(&with[8..], ["--target", "mic"]);
}
