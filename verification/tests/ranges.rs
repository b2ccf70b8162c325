use slice_proof::decode::decode_slice;
use slice_proof::error::ProofError;
use slice_proof::extract::{extract_slice, extract_window};
use slice_proof::header::{with_header, without_header};
use slice_proof::outboard::create_obao;
use std::io::{Cursor, Read};

const SIZES: [usize; 21] = [
    0, 1, 10, 1023, 1024, 1025, 2047, 2048, 2049, 3071, 3072, 3073, 4095, 4096, 4097, 8191, 8192,
    8193, 16383, 16384, 16385,
];

// Bytes that differ from place to place, so that a read from the wrong
// offset shows.
fn patterned(len: usize) -> Vec<u8> {
    let mut out = Vec::with_capacity(len);
    let mut state: u32 = 0x9e37_79b9;
    for _ in 0..len {
        state = state.wrapping_mul(1_664_525).wrapping_add(1_013_904_223);
        out.push((state >> 24) as u8);
    }
    out
}

// The slice that the extractor of the encoder crate makes with a seekable
// reader over the whole content, without its length header.
fn reference_slice(content: &[u8], obao: &[u8], start: u64, len: u64) -> Vec<u8> {
    let obao = with_header(content.len() as u64, obao);
    let mut extractor = bao::encode::SliceExtractor::new_outboard(
        Cursor::new(content),
        Cursor::new(&obao[..]),
        start,
        len,
    );
    let mut slice = Vec::new();
    extractor.read_to_end(&mut slice).unwrap();
    without_header(&slice)
}

fn queries(size: usize) -> Vec<(u64, u64)> {
    let size = size as u64;
    let starts = [0, 1, 1023, 1024, 1025, 2048, 3000, 4096, 8192, size / 2, size.saturating_sub(1)];
    let lens = [1, 2, 1023, 1024, 1025, 2048, 5000, size, u64::MAX];
    let mut out = Vec::new();
    for &s in starts.iter() {
        for &l in lens.iter() {
            out.push((s, l));
        }
    }
    out
}

fn asked(content: &[u8], start: u64, len: u64) -> &[u8] {
    let from = (start as usize).min(content.len());
    let to = (start.saturating_add(len)).min(content.len() as u64) as usize;
    &content[from..to.max(from)]
}

#[test]
fn whole_content_and_its_chunks_give_the_same_slice() {
    for &size in SIZES.iter() {
        let content = patterned(size);
        let (obao, _root) = create_obao(content.clone());
        for (start, len) in queries(size) {
            if start >= size as u64 {
                continue;
            }
            let from = (start / 1024 * 1024) as usize;
            let last = (start.saturating_add(len) - 1).min(size as u64 - 1) / 1024;
            let to = (((last + 1) * 1024) as usize).min(size);
            let whole = extract_slice(&content, &obao, start, len).unwrap();
            let windowed =
                extract_window(&obao, &content[from..to], start, len, size as u64).unwrap();
            assert_eq!(whole, windowed, "size {} start {} len {}", size, start, len);
            assert_eq!(whole, reference_slice(&content, &obao, start, len));
        }
    }
}

#[test]
fn a_slice_decodes_to_the_bytes_asked_for() {
    for &size in SIZES.iter() {
        let content = patterned(size);
        let (obao, root) = create_obao(content.clone());
        for (start, len) in queries(size) {
            let slice = extract_slice(&content, &obao, start, len).unwrap();
            let decoded = decode_slice(&slice, &root, start, len, size as u64).unwrap();
            assert_eq!(decoded, asked(&content, start, len), "size {} start {} len {}", size, start, len);
        }
    }
}

#[test]
fn a_query_for_nothing_has_the_empty_slice() {
    for &size in SIZES.iter() {
        let content = patterned(size);
        let (obao, root) = create_obao(content.clone());
        let size = size as u64;
        for (start, len) in [(0, 0), (1024, 0), (size, 1), (size, 1024), (size + 1, 7), (u64::MAX, u64::MAX)] {
            let slice = extract_slice(&content, &obao, start, len).unwrap();
            assert!(slice.is_empty());
            let windowed = extract_window(&obao, &content, start, len, size).unwrap();
            assert!(windowed.is_empty());
            let decoded = decode_slice(&slice, &root, start, len, size).unwrap();
            assert!(decoded.is_empty());
        }
    }
}

#[test]
fn a_slice_with_one_bit_flipped_is_invalid() {
    for &size in [1usize, 1024, 2049, 5000, 16385].iter() {
        let content = patterned(size);
        let (obao, root) = create_obao(content.clone());
        for start in [0, (size as u64 / 2) / 1024 * 1024, (size as u64 - 1) / 1024 * 1024] {
            let slice = extract_slice(&content, &obao, start, 1024).unwrap();
            assert!(!slice.is_empty());
            for at in 0..slice.len() {
                for bit in 0..8 {
                    let mut bad = slice.clone();
                    bad[at] ^= 1 << bit;
                    assert_eq!(
                        decode_slice(&bad, &root, start, 1024, size as u64),
                        Err(ProofError::InvalidData),
                        "size {} start {} byte {} bit {}",
                        size,
                        start,
                        at,
                        bit
                    );
                }
            }
        }
    }
}

#[test]
fn a_slice_cut_short_or_drawn_out_is_invalid() {
    let content = patterned(5000);
    let (obao, root) = create_obao(content.clone());
    for (start, len) in [(2048u64, 1024u64), (0, 1), (4096, 904), (1000, 3000)] {
        let slice = extract_slice(&content, &obao, start, len).unwrap();
        assert_eq!(
            decode_slice(&slice, &root, start, len, 5000).unwrap(),
            &content[start as usize..(start + len) as usize]
        );
        for keep in 0..slice.len() {
            assert_eq!(
                decode_slice(&slice[..keep], &root, start, len, 5000),
                Err(ProofError::InvalidData),
                "start {} kept {}",
                start,
                keep
            );
        }
        for more in [1usize, 2, 64, 1024] {
            let mut longer = slice.clone();
            longer.extend_from_slice(&vec![0u8; more]);
            assert_eq!(decode_slice(&longer, &root, start, len, 5000), Err(ProofError::InvalidData));
        }
    }
}

#[test]
fn a_slice_for_another_root_is_invalid() {
    let content = patterned(5000);
    let (obao, _root) = create_obao(content.clone());
    let (_, other_root) = create_obao(patterned(5001));
    let slice = extract_slice(&content, &obao, 0, 1024).unwrap();
    assert_eq!(decode_slice(&slice, &other_root, 0, 1024, 5000), Err(ProofError::InvalidData));
}

#[test]
fn a_slice_for_a_content_of_another_shape_is_invalid() {
    let content = patterned(5000);
    let (obao, root) = create_obao(content.clone());
    let slice = extract_slice(&content, &obao, 4096, 904).unwrap();
    assert_eq!(decode_slice(&slice, &root, 4096, 904, 5000).unwrap(), &content[4096..]);
    for other in [4999u64, 5001, 4097, 5120, 6000, 10000] {
        assert_eq!(
            decode_slice(&slice, &root, 4096, 904, other),
            Err(ProofError::InvalidData),
            "content length {}",
            other
        );
    }
}
