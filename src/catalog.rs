//! Building the catalog of boot entries from lookups in the store.

use vstd::prelude::*;

use crate::store::{
    names, split_display_order, split_on, views, StorePath, BOOT_MANAGER_ID,
    DEFAULT_OBJECT_ELEMENT, DESCRIPTION_ELEMENT, DISPLAY_ORDER_ELEMENT, ENTRY_SEPARATOR,
};

verus! {

/// One boot entry: its id in the store and the name shown to the operator.
#[derive(Debug)]
pub struct BootEntry {
    pub id: String,
    pub display_name: String,
}

/// The store's boot menu: the entry ids in display order and the default id.
/// The default id is normally one of the listed ids; nothing here relies on it.
#[derive(Debug)]
pub struct BootConfiguration {
    pub ordered_entries: Vec<String>,
    pub default_entry_id: String,
}

/// The boot menu together with the resolved entries, one per listed id.
#[derive(Debug)]
pub struct BootCatalog {
    pub configuration: BootConfiguration,
    pub entries: Vec<BootEntry>,
}

/// A store lookup that failed; the whole load is abandoned.
#[derive(Debug)]
pub struct ReadError {
    pub path: StorePath,
}

/// Whether `lookup` may answer `r` when asked for the element `element` of
/// the object `object_id`.
pub open spec fn answers<F: Fn(&StorePath) -> Option<String>>(
    lookup: F,
    object_id: Seq<char>,
    element: Seq<char>,
    r: Option<String>,
) -> bool {
    exists|p: StorePath| #[trigger] names(p, object_id, element) && lookup.ensures((&p,), r)
}

impl BootCatalog {
    /// Entries line up with the ordered ids, one for one.
    pub open spec fn wf(&self) -> bool {
        &&& self.entries@.len() == self.configuration.ordered_entries@.len()
        &&& forall|i: int|
            0 <= i < self.entries@.len() ==> #[trigger] self.entries@[i].id@
                == self.configuration.ordered_entries@[i]@
    }

    /// The ids in display order, as character sequences.
    pub open spec fn ids(&self) -> Seq<Seq<char>> {
        views(self.configuration.ordered_entries@)
    }

    /// The display names in display order, as character sequences.
    pub open spec fn display_names(&self) -> Seq<Seq<char>> {
        self.entries@.map_values(|e: BootEntry| e.display_name@)
    }

    /// Whether this catalog is what `lookup` answered: the ids are the pieces
    /// of the display-order value, the default is the default-object value,
    /// and each name is the description value of the id at its position.
    pub open spec fn read_from<F: Fn(&StorePath) -> Option<String>>(&self, lookup: F) -> bool {
        &&& self.wf()
        &&& exists|order: String|
            answers(lookup, BOOT_MANAGER_ID@, DISPLAY_ORDER_ELEMENT@, Some(order))
                && self.ids() == split_on(order@, ENTRY_SEPARATOR)
        &&& answers(
            lookup,
            BOOT_MANAGER_ID@,
            DEFAULT_OBJECT_ELEMENT@,
            Some(self.configuration.default_entry_id),
        )
        &&& forall|i: int|
            0 <= i < self.entries@.len() ==> answers(
                lookup,
                #[trigger] self.entries@[i].id@,
                DESCRIPTION_ELEMENT@,
                Some(self.entries@[i].display_name),
            )
    }

    /// Reads the display order, the default entry and every entry's name
    /// through `lookup`. The first lookup that fails ends the load with an
    /// error naming it.
    pub fn load<F: Fn(&StorePath) -> Option<String>>(lookup: F) -> (r: Result<
        BootCatalog,
        ReadError,
    >)
        requires
            forall|p: &StorePath| lookup.requires((p,)),
        ensures
            match r {
                Ok(c) => c.read_from(lookup),
                Err(e) => lookup.ensures((&e.path,), None) && (names(
                    e.path,
                    BOOT_MANAGER_ID@,
                    DISPLAY_ORDER_ELEMENT@,
                ) || names(e.path, BOOT_MANAGER_ID@, DEFAULT_OBJECT_ELEMENT@)
                    || e.path.element@ == DESCRIPTION_ELEMENT@),
            },
    {
        let order_path = StorePath::display_order();
        let order = match lookup(&order_path) {
            Some(v) => v,
            None => {
                return Err(ReadError { path: order_path });
            },
        };
        assert(names(order_path, BOOT_MANAGER_ID@, DISPLAY_ORDER_ELEMENT@));
        let default_path = StorePath::default_object();
        let default_entry_id = match lookup(&default_path) {
            Some(v) => v,
            None => {
                return Err(ReadError { path: default_path });
            },
        };
        assert(names(default_path, BOOT_MANAGER_ID@, DEFAULT_OBJECT_ELEMENT@));
        let ids = split_display_order(order.as_str());
        let mut entries: Vec<BootEntry> = Vec::new();
        let mut i: usize = 0;
        while i < ids.len()
            invariant
                i <= ids@.len(),
                forall|p: &StorePath| lookup.requires((p,)),
                entries@.len() == i,
                forall|j: int|
                    0 <= j < i ==> #[trigger] entries@[j].id@ == ids@[j]@ && answers(
                        lookup,
                        entries@[j].id@,
                        DESCRIPTION_ELEMENT@,
                        Some(entries@[j].display_name),
                    ),
            decreases ids@.len() - i,
        {
            let path = StorePath::description(ids[i].as_str());
            let answer = lookup(&path);
            let name = match answer {
                Some(v) => v,
                None => {
                    return Err(ReadError { path });
                },
            };
            assert(names(path, ids@[i as int]@, DESCRIPTION_ELEMENT@));
            assert(answers(lookup, ids@[i as int]@, DESCRIPTION_ELEMENT@, Some(name)));
            let ghost before = entries@;
            entries.push(BootEntry { id: ids[i].clone(), display_name: name });
            assert forall|j: int| 0 <= j < i + 1 implies #[trigger] entries@[j].id@ == ids@[j]@
                && answers(
                lookup,
                entries@[j].id@,
                DESCRIPTION_ELEMENT@,
                Some(entries@[j].display_name),
            ) by {
                if j < i {
                    assert(entries@[j] == before[j]);
                    assert(before[j].id@ == ids@[j]@);
                }
            }
            i = i + 1;
        }
        let c = BootCatalog {
            configuration: BootConfiguration { ordered_entries: ids, default_entry_id },
            entries,
        };
        assert(c.entries@.len() == c.configuration.ordered_entries@.len());

        Ok(c)
    }
}

} // verus!
