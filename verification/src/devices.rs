//! Cameras as the viewer lists them, and their labels.
use vstd::prelude::*;

use crate::decimal::{decimal, decimal_string, digits_value, is_digit, lemma_decimal_denotes};

verus! {

/// How a camera is addressed: by number, or by a name (network cameras).
pub enum DeviceIndex {
    Index(u32),
    Name(String),
}

/// A camera found on the system: its human-readable name and its index.
pub struct CameraDevice {
    pub name: String,
    pub index: DeviceIndex,
}

/// The text of a device index: the number in decimal, or the name.
pub open spec fn index_text(index: DeviceIndex) -> Seq<char> {
    match index {
        DeviceIndex::Index(i) => decimal(i as nat),
        DeviceIndex::Name(s) => s@,
    }
}

/// A numbered device's index reads as the number itself: a non-empty string
/// of decimal digits that denotes it, without a leading zero unless it is zero.
pub proof fn lemma_index_text_denotes_number(i: u32)
    ensures
        index_text(DeviceIndex::Index(i)).len() >= 1,
        forall|k: int|
            0 <= k < index_text(DeviceIndex::Index(i)).len() ==> is_digit(
                #[trigger] index_text(DeviceIndex::Index(i))[k],
            ),
        digits_value(index_text(DeviceIndex::Index(i))) == i,
        index_text(DeviceIndex::Index(i))[0] as u32 == 48 ==> i == 0,
{
    lemma_decimal_denotes(i as nat);
}

/// A numbered camera with a blank name is labelled "Camera " followed by a
/// non-empty string of digits that denotes its number.
pub proof fn lemma_blank_label_names_number(name: String, i: u32)
    requires
        is_blank(name@),
    ensures
        ({
            let label = device_label_spec(CameraDevice { name, index: DeviceIndex::Index(i) });
            &&& label.len() > 7
            &&& label.subrange(0, 7) == "Camera "@
            &&& digits_value(label.skip(7)) == i
            &&& forall|k: int| 7 <= k < label.len() ==> is_digit(#[trigger] label[k])
        }),
{
    reveal_strlit("Camera ");
    let t = index_text(DeviceIndex::Index(i));
    lemma_index_text_denotes_number(i);
    let label = "Camera "@ + t;
    assert(label.subrange(0, 7) =~= "Camera "@);
    assert(label.skip(7) =~= t);
    assert forall|k: int| 7 <= k < label.len() implies is_digit(#[trigger] label[k]) by {
        assert(label[k] == t[k - 7]);
    }
}

/// Unicode's White_Space property, which `char::is_whitespace` and
/// `str::trim` go by.
pub open spec fn is_white_space(c: char) -> bool {
    let u = c as u32;
    ||| 0x09 <= u <= 0x0D
    ||| u == 0x20
    ||| u == 0x85
    ||| u == 0xA0
    ||| u == 0x1680
    ||| 0x2000 <= u <= 0x200A
    ||| u == 0x2028
    ||| u == 0x2029
    ||| u == 0x202F
    ||| u == 0x205F
    ||| u == 0x3000
}

/// Whether `s` is empty once trimmed: every character is white space.
pub open spec fn is_blank(s: Seq<char>) -> bool {
    forall|i: int| 0 <= i < s.len() ==> is_white_space(#[trigger] s[i])
}

/// The label the viewer shows for a device: its name, or "Camera {index}"
/// when the name is blank.
pub open spec fn device_label_spec(device: CameraDevice) -> Seq<char> {
    if is_blank(device.name@) {
        "Camera "@ + index_text(device.index)
    } else {
        device.name@
    }
}

/// Whether `c` is white space.
pub fn char_is_white_space(c: char) -> (b: bool)
    ensures
        b == is_white_space(c),
{
    let u = c as u32;
    (0x09 <= u && u <= 0x0D) || u == 0x20 || u == 0x85 || u == 0xA0 || u == 0x1680 || (0x2000 <= u
        && u <= 0x200A) || u == 0x2028 || u == 0x2029 || u == 0x202F || u == 0x205F || u == 0x3000
}

/// Whether `s` trims to the empty string.
pub fn str_is_blank(s: &str) -> (b: bool)
    ensures
        b == is_blank(s@),
{
    let n = s.unicode_len();
    let mut i: usize = 0;
    while i < n
        invariant
            n == s@.len(),
            i <= n,
            forall|j: int| 0 <= j < i ==> is_white_space(#[trigger] s@[j]),
        decreases n - i,
    {
        let c = s.get_char(i);
        if !char_is_white_space(c) {
            return false;
        }
        i = i + 1;
    }
    true
}

impl DeviceIndex {
    /// A copy of this index.
    pub fn duplicate(&self) -> (r: DeviceIndex)
        ensures
            r == *self,
    {
        match self {
            DeviceIndex::Index(i) => DeviceIndex::Index(*i),
            DeviceIndex::Name(s) => DeviceIndex::Name(s.clone()),
        }
    }

    /// The index as text: the number in decimal, or the name.
    pub fn to_text(&self) -> (s: String)
        ensures
            s@ == index_text(*self),
    {
        match self {
            DeviceIndex::Index(i) => decimal_string(*i as u64),
            DeviceIndex::Name(n) => n.clone(),
        }
    }
}

/// The label shown for `device`: its name, or "Camera {index}" when the
/// name is blank.
pub fn device_label(device: &CameraDevice) -> (s: String)
    ensures
        s@ == device_label_spec(*device),
{
    if str_is_blank(device.name.as_str()) {
        let index = device.index.to_text();
        let mut s = String::from_str("Camera ");
        s.append(index.as_str());
        s
    } else {
        device.name.clone()
    }
}

} // verus!
