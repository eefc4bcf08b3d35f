use vstd::prelude::*;
use vstd::string::{StringExecFns, StringSliceAdditionalSpecFns};

verus! {

/// The bytes of the volume label under which the device is mounted.
pub open spec fn device_label() -> Seq<u8> {
    seq![0x4bu8, 0x69u8, 0x6eu8, 0x64u8, 0x6cu8, 0x65u8]
}

/// Whether `pat` occurs in `s` starting at position `i`.
pub open spec fn occurs_at(s: Seq<u8>, pat: Seq<u8>, i: int) -> bool {
    0 <= i && i + pat.len() <= s.len() && s.subrange(i, i + pat.len()) == pat
}

/// Whether the mount table lists the device: its text holds the device label.
pub fn mounts_show_device(mounts: &str) -> (r: bool)
    ensures
        r == exists|i: int| occurs_at(mounts.spec_bytes(), device_label(), i),
{
    let label: [u8; 6] = [0x4b, 0x69, 0x6e, 0x64, 0x6c, 0x65];
    assert(label@ =~= device_label());
    let bytes = mounts.as_bytes();
    let n = bytes.len();
    if n < 6 {
        assert forall|i: int| !occurs_at(mounts.spec_bytes(), device_label(), i) by {}
        return false;
    }
    let mut i: usize = 0;
    while i <= n - 6
        invariant
            n == bytes@.len(),
            n >= 6,
            bytes@ == mounts.spec_bytes(),
            label@ == device_label(),
            i <= n - 5,
            forall|k: int| 0 <= k < i ==> !occurs_at(bytes@, device_label(), k),
        decreases n - i,
    {
        let mut j: usize = 0;
        let mut same = true;
        while j < 6
            invariant
                n == bytes@.len(),
                i <= n - 6,
                label@ == device_label(),
                j <= 6,
                same == forall|t: int| 0 <= t < j ==> bytes@[i + t] == label@[t],
            decreases 6 - j,
        {
            if bytes[i + j] != label[j] {
                same = false;
            }
            j = j + 1;
        }
        if same {
            assert(bytes@.subrange(i as int, i + 6) =~= device_label());
            assert(occurs_at(mounts.spec_bytes(), device_label(), i as int));
            return true;
        }
        assert(!occurs_at(bytes@, device_label(), i as int)) by {
            let t = choose|t: int| 0 <= t < 6 && bytes@[i + t] != label@[t];
            if bytes@.subrange(i as int, i + 6) == device_label() {
                assert(bytes@.subrange(i as int, i + 6)[t] == bytes@[i + t]);
            }
        }
        i = i + 1;
    }
    false
}

/// The directory where the device keeps its documents for the given user.
pub fn mount_point(user: &str) -> (r: String)
    ensures
        r@ == "/media/"@ + user@ + "/Kindle/documents"@,
{
    let mut path = String::from_str("/media/");
    path.append(user);
    path.append("/Kindle/documents");
    path
}

} // verus!
