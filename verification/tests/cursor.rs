use bytes::Bytes;
use bytes_cursor::{BytesWrapper, Needed};

fn cursor(data: &'static [u8]) -> BytesWrapper {
    BytesWrapper::from(Bytes::from_static(data))
}

#[test]
fn it_works() {
    let input = cursor(b"this is my cool input, please don't copy from me!");

    let split_at = input.position(|v| v == b',').unwrap();
    let (rest, v) = input.take_split(split_at);

    assert_eq!(&v.iter_elements()[..], b"this is my cool input");
    assert_eq!(&rest.iter_elements()[..], b", please don't copy from me!");
}

#[test]
fn input_len_counts_visible_bytes() {
    assert_eq!(cursor(b"").input_len(), 0);
    assert_eq!(cursor(b"abcde").input_len(), 5);
}

#[test]
fn take_keeps_the_prefix() {
    let c = cursor(b"abcdef");
    assert_eq!(c.take(3).iter_elements(), b"abc".to_vec());
    assert_eq!(c.take(0).iter_elements(), Vec::<u8>::new());
    assert_eq!(c.take(6).iter_elements(), b"abcdef".to_vec());
    // The original cursor is untouched by deriving prefixes from it.
    assert_eq!(c.iter_elements(), b"abcdef".to_vec());
}

#[test]
fn take_split_returns_suffix_then_prefix() {
    let c = cursor(b"abcdef");
    let (suffix, prefix) = c.take_split(2);
    assert_eq!(prefix.iter_elements(), b"ab".to_vec());
    assert_eq!(suffix.iter_elements(), b"cdef".to_vec());
}

#[test]
fn split_parts_reassemble_the_view() {
    let c = cursor(b"abcdef");
    for n in 0..=c.input_len() {
        let (suffix, prefix) = c.take_split(n);
        let mut rebuilt = prefix.iter_elements();
        rebuilt.extend(suffix.iter_elements());
        assert_eq!(rebuilt, c.iter_elements());
        assert_eq!(prefix.input_len() + suffix.input_len(), c.input_len());
    }
}

#[test]
fn find_substring_returns_first_occurrence() {
    let c = cursor(b"abcabcabc");
    assert_eq!(c.find_substring(b"abc"), Some(0));
    assert_eq!(c.find_substring(b"bca"), Some(1));
    assert_eq!(c.find_substring(b"cab"), Some(2));
    assert_eq!(c.find_substring(b"c"), Some(2));
}

#[test]
fn find_substring_empty_needle_is_at_zero() {
    assert_eq!(cursor(b"abc").find_substring(b""), Some(0));
    assert_eq!(cursor(b"").find_substring(b""), Some(0));
}

#[test]
fn find_substring_absent_or_too_long() {
    let c = cursor(b"abc");
    assert_eq!(c.find_substring(b"zzz"), None);
    assert_eq!(c.find_substring(b"abcd"), None);
    assert_eq!(cursor(b"").find_substring(b"a"), None);
}

#[test]
fn find_substring_str_matches_raw_bytes() {
    let c = cursor(b"hello world");
    assert_eq!(c.find_substring_str("world"), Some(6));
    assert_eq!(c.find_substring_str("o w"), Some(4));
    assert_eq!(c.find_substring_str(""), Some(0));
    assert_eq!(c.find_substring_str("worlds"), None);
}

#[test]
fn iter_elements_yields_every_byte_in_order() {
    assert_eq!(cursor(b"xyz").iter_elements(), vec![b'x', b'y', b'z']);
    assert_eq!(cursor(b"").iter_elements(), Vec::<u8>::new());
}

#[test]
fn iter_elements_is_restartable() {
    let c = cursor(b"restartable");
    let first = c.iter_elements();
    let second = c.iter_elements();
    assert_eq!(first, second);
}

#[test]
fn iter_indices_start_at_zero_for_derived_cursors() {
    let c = cursor(b"abcdef");
    let (suffix, _) = c.take_split(3);
    let indexed = suffix.iter_indices();
    assert_eq!(indexed, vec![(0, b'd'), (1, b'e'), (2, b'f')]);

    let deeper = suffix.take(2);
    assert_eq!(deeper.iter_indices(), vec![(0, b'd'), (1, b'e')]);
}

#[test]
fn position_finds_the_first_matching_element() {
    let c = cursor(b"abcabc");
    assert_eq!(c.position(|v| v == b'b'), Some(1));
    assert_eq!(c.position(|v| v == b'z'), None);
    assert_eq!(c.position(|_| true), Some(0));
    assert_eq!(cursor(b"").position(|_| true), None);
}

#[test]
fn slice_index_is_identity_within_bounds() {
    let c = cursor(b"abcd");
    assert_eq!(c.slice_index(0), Ok(0));
    assert_eq!(c.slice_index(3), Ok(3));
    assert_eq!(c.slice_index(4), Ok(4));
}

#[test]
fn slice_index_reports_the_shortfall() {
    let c = cursor(b"abcd");
    assert_eq!(c.slice_index(5), Err(Needed::Size(1)));
    assert_eq!(c.slice_index(10), Err(Needed::Size(6)));
    assert_eq!(cursor(b"").slice_index(1), Err(Needed::Size(1)));
}

#[test]
fn wrapping_and_unwrapping_share_the_buffer() {
    let buffer = Bytes::from_static(b"shared storage");
    let c = BytesWrapper::from(buffer.clone());
    assert_eq!(c.as_bytes(), &buffer);
    let back: Bytes = c.into_bytes();
    assert_eq!(back, buffer);
}

#[test]
fn cloned_cursors_show_the_same_view() {
    let c = cursor(b"twice");
    let d = c.clone();
    assert_eq!(c.iter_elements(), d.iter_elements());
}

#[test]
fn derived_cursors_alias_the_backing_storage() {
    // `Bytes::slice` hands out views into the same allocation; the pointer
    // of a derived cursor's first byte therefore lies inside the original
    // buffer, showing that no byte was copied into new storage.
    let buffer = Bytes::from_static(b"alias me, do not copy me");
    let base = buffer.as_ptr() as usize;
    let len = buffer.len();
    let c = BytesWrapper::from(buffer);
    let (suffix, prefix) = c.take_split(8);
    let p = prefix.as_bytes().as_ptr() as usize;
    let s = suffix.as_bytes().as_ptr() as usize;
    assert!(p == base);
    assert!(base <= s && s < base + len);
}
