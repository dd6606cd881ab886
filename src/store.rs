//! Keys of the boot configuration store and the encoding of its values.

use vstd::prelude::*;
use vstd::string::StringExecFns;

verus! {

/// The character that separates entry ids in a multi-string store value.
pub const ENTRY_SEPARATOR: char = '\n';

/// The pieces of `s` between occurrences of `sep`, in order. Like splitting a
/// string, an empty input gives one empty piece and a trailing separator
/// gives a trailing empty piece.
pub open spec fn split_on(s: Seq<char>, sep: char) -> Seq<Seq<char>>
    decreases s.len(),
{
    if s.len() == 0 {
        seq![Seq::<char>::empty()]
    } else {
        let init = split_on(s.drop_last(), sep);
        if s.last() == sep {
            init.push(Seq::<char>::empty())
        } else {
            init.update(init.len() - 1, init.last().push(s.last()))
        }
    }
}

/// A split never yields an empty list of pieces.
pub proof fn lemma_split_on_nonempty(s: Seq<char>, sep: char)
    ensures
        split_on(s, sep).len() >= 1,
    decreases s.len(),
{
    if s.len() > 0 {
        lemma_split_on_nonempty(s.drop_last(), sep);
    }
}

/// The views of a list of strings.
pub open spec fn views(v: Seq<String>) -> Seq<Seq<char>> {
    v.map_values(|x: String| x@)
}

/// Splits a display-order value into the entry ids it lists, in order.
pub fn split_display_order(value: &str) -> (ids: Vec<String>)
    ensures
        views(ids@) == split_on(value@, ENTRY_SEPARATOR),
{
    let n = value.unicode_len();
    let mut ids: Vec<String> = Vec::new();
    let mut start: usize = 0;
    let mut i: usize = 0;
    assert(value@.subrange(0, 0) =~= Seq::<char>::empty());
    assert(views(ids@) =~= Seq::<Seq<char>>::empty());
    assert(views(ids@).push(value@.subrange(0, 0)) =~= split_on(value@.subrange(0, 0), ENTRY_SEPARATOR));
    while i < n
        invariant
            n == value@.len(),
            start <= i <= n,
            views(ids@).push(value@.subrange(start as int, i as int)) == split_on(
                value@.subrange(0, i as int),
                ENTRY_SEPARATOR,
            ),
        decreases n - i,
    {
        let c = value.get_char(i);
        let ghost before = value@.subrange(0, i as int);
        let ghost after = value@.subrange(0, i + 1);
        assert(after.drop_last() =~= before);
        assert(after.last() == c);
        if c == ENTRY_SEPARATOR {
            let ghost old_ids = ids@;
            let piece = String::from_str(value.substring_char(start, i));
            ids.push(piece);
            assert(views(ids@) =~= views(old_ids).push(value@.subrange(start as int, i as int)));
            start = i + 1;
            assert(value@.subrange(start as int, i + 1) =~= Seq::<char>::empty());
            assert(split_on(after, ENTRY_SEPARATOR) == split_on(before, ENTRY_SEPARATOR).push(Seq::<char>::empty()));
            assert(views(ids@).push(value@.subrange(start as int, i + 1)) =~= split_on(after, ENTRY_SEPARATOR));
        } else {
            assert(value@.subrange(start as int, i + 1) =~= value@.subrange(start as int, i as int).push(c));
            assert(views(ids@).push(value@.subrange(start as int, i + 1)) =~= split_on(after, ENTRY_SEPARATOR));
        }
        i = i + 1;
    }
    let last = String::from_str(value.substring_char(start, n));
    ids.push(last);
    assert(value@.subrange(0, n as int) == value@);
    ids
}

} // verus!

verus! {

/// The well-known id of the boot manager object.
pub const BOOT_MANAGER_ID: &'static str = "{9DEA862C-5CDD-4E70-ACC1-F32B344D4795}";

/// Element code of the boot manager's display order (a list of entry ids).
pub const DISPLAY_ORDER_ELEMENT: &'static str = "24000001";

/// Element code of the boot manager's default object (one entry id).
pub const DEFAULT_OBJECT_ELEMENT: &'static str = "23000003";

/// Element code of an entry's description (its display name).
pub const DESCRIPTION_ELEMENT: &'static str = "12000004";

/// The fixed root under which every object of the store lives.
pub const OBJECTS_ROOT: &'static str = "BCD00000000\\Objects\\";

/// The segment between an object id and its element code.
pub const ELEMENTS_SEGMENT: &'static str = "\\Elements\\";

/// The name of the value that holds an element's data.
pub const ELEMENT_VALUE_NAME: &'static str = "Element";

/// A key of the store: one element of one object.
#[derive(Debug)]
pub struct StorePath {
    pub object_id: String,
    pub element: String,
}

/// Whether `p` names the element `element` of the object `object_id`.
pub open spec fn names(p: StorePath, object_id: Seq<char>, element: Seq<char>) -> bool {
    p.object_id@ == object_id && p.element@ == element
}

impl StorePath {
    /// The key of the boot manager's display order.
    pub fn display_order() -> (p: StorePath)
        ensures
            names(p, BOOT_MANAGER_ID@, DISPLAY_ORDER_ELEMENT@),
    {
        StorePath {
            object_id: String::from_str(BOOT_MANAGER_ID),
            element: String::from_str(DISPLAY_ORDER_ELEMENT),
        }
    }

    /// The key of the boot manager's default object.
    pub fn default_object() -> (p: StorePath)
        ensures
            names(p, BOOT_MANAGER_ID@, DEFAULT_OBJECT_ELEMENT@),
    {
        StorePath {
            object_id: String::from_str(BOOT_MANAGER_ID),
            element: String::from_str(DEFAULT_OBJECT_ELEMENT),
        }
    }

    /// The key of the description of the entry `id`.
    pub fn description(id: &str) -> (p: StorePath)
        ensures
            names(p, id@, DESCRIPTION_ELEMENT@),
    {
        StorePath { object_id: String::from_str(id), element: String::from_str(DESCRIPTION_ELEMENT) }
    }

    /// The subkey of the store that holds this element, below the machine's root.
    pub fn subkey(&self) -> (r: String)
        ensures
            r@ == OBJECTS_ROOT@ + self.object_id@ + ELEMENTS_SEGMENT@ + self.element@,
    {
        let mut r = String::from_str(OBJECTS_ROOT);
        r.append(self.object_id.as_str());
        r.append(ELEMENTS_SEGMENT);
        r.append(self.element.as_str());
        r
    }
}

} // verus!
