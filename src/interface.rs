//! Logical interface selectors and their resolution against the host's
//! interface list.

use vstd::prelude::*;

verus! {

/// A logical interface selector; each stands for one platform device name
/// (as listed by `networksetup -listallhardwareports`).
#[derive(Clone, Copy, Debug, PartialEq, Eq)]
pub enum NetInterface {
    WIFI,
    BLUETOOTHPAN,
    THUNDERBOLT1,
    THUNDERBOLT2,
    THUNDERBOLT3,
    THUNDERBOLT4,
    TUNDERBOLTBRIDGE,
}

impl NetInterface {
    /// The device name that this selector stands for.
    pub open spec fn device_name(self) -> Seq<char> {
        match self {
            NetInterface::WIFI => seq!['e', 'n', '0'],
            NetInterface::BLUETOOTHPAN => seq!['e', 'n', '1', '1'],
            NetInterface::THUNDERBOLT1 => seq!['e', 'n', '1'],
            NetInterface::THUNDERBOLT2 => seq!['e', 'n', '2'],
            NetInterface::THUNDERBOLT3 => seq!['e', 'n', '3'],
            NetInterface::THUNDERBOLT4 => seq!['e', 'n', '4'],
            NetInterface::TUNDERBOLTBRIDGE => seq!['b', 'r', 'i', 'd', 'g', 'e', '0'],
        }
    }

    /// The device name of this selector, as a `String`.
    pub fn to_string(&self) -> (r: String)
        ensures
            r@ == self.device_name(),
    {
        let s = match self {
            NetInterface::WIFI => "en0",
            NetInterface::BLUETOOTHPAN => "en11",
            NetInterface::THUNDERBOLT1 => "en1",
            NetInterface::THUNDERBOLT2 => "en2",
            NetInterface::THUNDERBOLT3 => "en3",
            NetInterface::THUNDERBOLT4 => "en4",
            NetInterface::TUNDERBOLTBRIDGE => "bridge0",
        };
        proof {
            reveal_strlit("en0");
            reveal_strlit("en11");
            reveal_strlit("en1");
            reveal_strlit("en2");
            reveal_strlit("en3");
            reveal_strlit("en4");
            reveal_strlit("bridge0");
        }
        s.to_owned()
    }
}

/// The names of a list of interfaces, as character sequences.
pub open spec fn name_seq(names: Seq<String>) -> Seq<Seq<char>> {
    names.map_values(|s: String| s@)
}

/// `found` is the position of the first name equal to `target`, or `None`
/// when no name equals it.
pub open spec fn is_first_match(names: Seq<Seq<char>>, target: Seq<char>, found: Option<int>) -> bool {
    match found {
        Some(i) => 0 <= i < names.len() && names[i] == target && forall|j: int|
            0 <= j < i ==> names[j] != target,
        None => forall|j: int| 0 <= j < names.len() ==> names[j] != target,
    }
}

/// Finds the interface that `selector` names: the position in `names` of the
/// first entry equal to its device name, or `None` when there is none (which
/// a caller treats as a fatal startup failure).
pub fn resolve_interface(selector: &NetInterface, names: &Vec<String>) -> (r: Option<usize>)
    ensures
        is_first_match(name_seq(names@), selector.device_name(), match r {
            Some(i) => Some(i as int),
            None => None,
        }),
{
    let target = selector.to_string();
    let mut i: usize = 0;
    while i < names.len()
        invariant
            0 <= i <= names.len(),
            target@ == selector.device_name(),
            forall|j: int| 0 <= j < i ==> names@[j]@ != target@,
        decreases names.len() - i,
    {
        if names[i] == target {
            return Some(i);
        }
        i = i + 1;
    }
    None
}

/// Resolution is deterministic: for a fixed list of names and a fixed
/// selector at most one answer meets the contract of `resolve_interface`, so
/// every resolution returns the same position, or fails every time.
pub proof fn lemma_resolution_deterministic(
    names: Seq<Seq<char>>,
    selector: NetInterface,
    a: Option<int>,
    b: Option<int>,
)
    requires
        is_first_match(names, selector.device_name(), a),
        is_first_match(names, selector.device_name(), b),
    ensures
        a == b,
{
    let t = selector.device_name();
    match (a, b) {
        (Some(i), Some(k)) => {
            if i < k {
                assert(names[i] == t);
            } else if k < i {
                assert(names[k] == t);
            }
        },
        (Some(i), None) => {
            assert(names[i] == t);
        },
        (None, Some(k)) => {
            assert(names[k] == t);
        },
        (None, None) => {},
    }
}

} // verus!
