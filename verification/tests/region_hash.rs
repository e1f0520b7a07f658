use goldboot::errors::CoreError;
use goldboot::screenshot::{Rect, VncScreenshot};

fn frame(width: u16, height: u16) -> VncScreenshot {
    let mut data = Vec::new();
    for y in 0..height as usize {
        for x in 0..width as usize {
            data.push(((x * 7 + y * 13) % 251) as u8);
        }
    }
    VncScreenshot { data, width, height }
}

#[test]
fn trim_copies_the_region_row_major() {
    let s = frame(8, 6);
    let rect = Rect { left: 2, top: 1, width: 3, height: 4 };
    let t = s.trim(rect).unwrap();
    assert_eq!(t.width, 3);
    assert_eq!(t.height, 4);
    assert_eq!(t.data.len(), 12);
    for y in 0..4usize {
        for x in 0..3usize {
            let expected = s.data[(y + 1) * 8 + (x + 2)];
            assert_eq!(t.data[y * 3 + x], expected);
        }
    }
}

#[test]
fn trim_of_the_whole_frame_is_the_frame() {
    let s = frame(5, 5);
    let t = s.trim(Rect { left: 0, top: 0, width: 5, height: 5 }).unwrap();
    assert_eq!(t.data, s.data);
}

#[test]
fn trim_accepts_a_region_touching_the_edges() {
    let s = frame(10, 10);
    let t = s.trim(Rect { left: 6, top: 7, width: 4, height: 3 }).unwrap();
    assert_eq!(t.width, 4);
    assert_eq!(t.height, 3);
}

#[test]
fn trim_rejects_a_region_too_tall() {
    let s = frame(10, 10);
    let r = s.trim(Rect { left: 0, top: 7, width: 4, height: 4 });
    assert_eq!(r.unwrap_err(), CoreError::Bounds);
}

#[test]
fn trim_rejects_a_region_too_wide() {
    let s = frame(10, 10);
    let r = s.trim(Rect { left: 8, top: 0, width: 3, height: 2 });
    assert_eq!(r.unwrap_err(), CoreError::Bounds);
}

#[test]
fn hash_is_the_sha1_of_the_bytes_in_hex() {
    // The pixel bytes spell "abc"; dimensions are not hashed.
    let s = VncScreenshot { data: b"abc".to_vec(), width: 3, height: 1 };
    assert_eq!(s.hash(), "a9993e364706816aba3e25717850c26c9cd0d89d");
    let tall = VncScreenshot { data: b"abc".to_vec(), width: 1, height: 3 };
    assert_eq!(tall.hash(), "a9993e364706816aba3e25717850c26c9cd0d89d");
}

#[test]
fn hash_of_the_empty_frame() {
    let s = VncScreenshot { data: Vec::new(), width: 0, height: 0 };
    assert_eq!(s.hash(), "da39a3ee5e6b4b0d3255bfef95601890afd80709");
}

#[test]
fn hash_is_deterministic_and_separates_buffers() {
    let a = frame(16, 16);
    let b = frame(16, 16);
    assert_eq!(a.hash(), b.hash());
    let mut c = frame(16, 16);
    c.data[40] ^= 1;
    assert_ne!(a.hash(), c.hash());
}

#[test]
fn error_messages_name_the_failure() {
    assert_eq!(CoreError::Bounds.message(), "rectangle out of bounds");
    assert_eq!(CoreError::Transport.message(), "display transport failed");
}
