//! Where a volume is mounted: paths as the bytes that the kernel takes.
use vstd::prelude::*;
use vstd::utf8::{
    decode_utf8, decode_utf8_encode_utf8, encode_utf8, encode_utf8_decode_utf8,
    encode_utf8_valid_utf8, is_ascii_chars_encode_utf8, valid_utf8,
};

verus! {

/// The directory, inside a volume's private directory, that it is mounted at.
pub const MOUNT_NAME: &'static str = "mount";

/// The byte that separates the parts of a path.
pub const SEPARATOR: u8 = 0x2f;

/// The path of the mountpoint inside the private directory `dir`.
pub open spec fn mountpoint_of(dir: Seq<u8>) -> Seq<u8> {
    if dir.len() == 0 || dir.last() == SEPARATOR {
        dir + encode_utf8(MOUNT_NAME@)
    } else {
        dir.push(SEPARATOR) + encode_utf8(MOUNT_NAME@)
    }
}

/// The text of a path; `None` where its bytes are not text.
pub open spec fn path_text(path: Seq<u8>) -> Option<Seq<char>> {
    if valid_utf8(path) {
        Some(decode_utf8(path))
    } else {
        None
    }
}

/// The path of the mountpoint inside the private directory `dir`.
pub fn mountpoint(dir: &Vec<u8>) -> (path: Vec<u8>)
    ensures
        path@ == mountpoint_of(dir@),
{
    let mut path: Vec<u8> = dir.clone();
    assert(path@ =~= dir@);
    let len: usize = path.len();
    if len > 0 && path[len - 1] != SEPARATOR {
        path.push(SEPARATOR);
    }
    let ghost base = path@;
    let name = MOUNT_NAME.as_bytes();
    path.extend_from_slice(name);
    assert(path@ =~= base + name@);
    path
}

/// The text of a sequence of bytes; `None` where it is not UTF-8.
///
/// Calls `std::string::String::from_utf8`, which decodes exactly the byte
/// sequences that are UTF-8.
#[verifier::external_body]
fn text_from_utf8(bytes: Vec<u8>) -> (text: Option<String>)
    ensures
        text is Some <==> valid_utf8(bytes@),
        text matches Some(t) ==> t@ == decode_utf8(bytes@),
{
    String::from_utf8(bytes).ok()
}

/// The text of a path; `None` where its bytes are not text.
pub fn text_of(path: Vec<u8>) -> (text: Option<String>)
    ensures
        text is Some <==> path_text(path@) is Some,
        text matches Some(t) ==> path_text(path@) == Some(t@),
{
    text_from_utf8(path)
}

/// A volume is mounted at `mount` inside its private directory: the path is that
/// of the directory, a separator where it does not end in one, and the name.
pub proof fn law_mountpoint(dir: Seq<u8>)
    ensures
        ({
            let name = seq![0x6du8, 0x6f, 0x75, 0x6e, 0x74];
            let path = mountpoint_of(dir);
            &&& dir.len() == 0 ==> path == name
            &&& dir.len() > 0 && dir.last() == 0x2f ==> path == dir + name
            &&& dir.len() > 0 && dir.last() != 0x2f ==> path == dir + seq![0x2fu8] + name
        }),
{
    let name = seq![0x6du8, 0x6f, 0x75, 0x6e, 0x74];
    reveal_strlit("mount");
    is_ascii_chars_encode_utf8("mount"@);
    assert(encode_utf8("mount"@) =~= name);
    if dir.len() == 0 {
        assert(mountpoint_of(dir) =~= name);
    } else if dir.last() == 0x2f {
        assert(mountpoint_of(dir) =~= dir + name);
    } else {
        assert(mountpoint_of(dir) =~= dir + seq![0x2fu8] + name);
    }
}

/// A call of `mountpoint` gives the path of the directory followed by `/mount`,
/// with a single separator; the directory can be read off the path, so that no
/// two directories, neither of which ends in a separator, share a mountpoint.
pub proof fn law_mountpoint_is_inside(dir: &Vec<u8>, path: Vec<u8>)
    requires
        call_ensures(mountpoint, (dir,), path),
    ensures
        path@.take(dir@.len() as int) == dir@,
        dir@.len() > 0 && dir@.last() != 0x2f ==> path@.skip(dir@.len() as int)
            == seq![0x2fu8, 0x6d, 0x6f, 0x75, 0x6e, 0x74],
{
    law_mountpoint(dir@);
    assert(path@.take(dir@.len() as int) =~= dir@);
    if dir@.len() > 0 && dir@.last() != 0x2f {
        assert(path@.skip(dir@.len() as int) =~= seq![0x2fu8, 0x6d, 0x6f, 0x75, 0x6e, 0x74]);
    }
}

/// The text of a path is the text whose UTF-8 the path is: a path has a text
/// where its bytes are UTF-8, and the text gives the same bytes back.
pub proof fn law_path_text(path: Seq<u8>)
    ensures
        path_text(path) is Some <==> valid_utf8(path),
        path_text(path) matches Some(text) ==> encode_utf8(text) == path,
{
    if valid_utf8(path) {
        decode_utf8_encode_utf8(path);
    }
}

/// Any text is read back from its bytes.
pub proof fn law_text_of_bytes(text: Seq<char>)
    ensures
        path_text(encode_utf8(text)) == Some(text),
{
    encode_utf8_valid_utf8(text);
    encode_utf8_decode_utf8(text);
}

/// A call of `text_of` gives the text of the bytes, and gives none only where
/// they are not UTF-8.
pub proof fn law_text_of(path: Vec<u8>, text: Option<String>)
    requires
        call_ensures(text_of, (path,), text),
    ensures
        text is Some <==> valid_utf8(path@),
        text matches Some(t) ==> encode_utf8(t@) == path@,
{
    law_path_text(path@);
}

} // verus!
