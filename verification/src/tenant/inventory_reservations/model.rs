//! Stock reservation records as the database gives them, with identifiers
//! as their 128-bit values, amounts as decimal text and times as
//! `OffsetTimestamp`s, and their flattening into an ordered text map.

use crate::common::bindings::{uuid_hyphenated, uuid_text};
use crate::common::ordered_map::{entries_insert, index_map_entries, index_map_insert, index_map_new};
use crate::common::value_object::opt_text;
use crate::common::time::{rfc3339, spec_rfc3339, OffsetTimestamp};
use indexmap::IndexMap;
use vstd::prelude::*;

verus! {

/// A stock reservation row.
#[derive(Debug, Clone, PartialEq)]
pub struct InventoryReservation {
    pub id: u128,
    pub inventory_id: u128,
    pub quantity: String,
    pub reference_type: Option<String>,
    pub reference_id: Option<u128>,
    pub reserved_until: Option<OffsetTimestamp>,
    pub status: String,
    pub created_by_id: u128,
    pub created_at: OffsetTimestamp,
    pub updated_at: OffsetTimestamp,
}

/// A stock reservation row with the name of its creator.
#[derive(Debug, Clone, PartialEq)]
pub struct InventoryReservationResolved {
    pub id: u128,
    pub inventory_id: u128,
    pub quantity: String,
    pub reference_type: Option<String>,
    pub reference_id: Option<u128>,
    pub reserved_until: Option<OffsetTimestamp>,
    pub status: String,
    pub created_by_id: u128,
    pub created_by: String,
    pub created_at: OffsetTimestamp,
    pub updated_at: OffsetTimestamp,
}

/// The text of an optional value, the empty text when it is missing.
pub open spec fn or_empty(o: Option<Seq<char>>) -> Seq<char> {
    match o {
        Some(s) => s,
        None => Seq::empty(),
    }
}

proof fn lemma_insert_fresh(e: Seq<(Seq<char>, Seq<char>)>, k: Seq<char>, v: Seq<char>)
    requires
        forall|i: int| 0 <= i < e.len() ==> #[trigger] e[i].0 != k,
    ensures
        entries_insert(e, k, v) == e.push((k, v)),
{
}

impl InventoryReservationResolved {
    /// The times of the reservation can be written as RFC 3339 text.
    pub open spec fn times_write(self) -> bool {
        &&& (self.reserved_until matches Some(t) ==> spec_rfc3339(t) is Some)
        &&& spec_rfc3339(self.created_at) is Some
        &&& spec_rfc3339(self.updated_at) is Some
    }

    /// The reservation as (field name, text) entries, in this order:
    /// identifiers as hyphenated UUIDs, a missing value as the empty text,
    /// times as RFC 3339 text at their recorded offset.
    pub open spec fn spec_entries(self) -> Seq<(Seq<char>, Seq<char>)> {
        seq![
            ("id"@, uuid_hyphenated(self.id)),
            ("inventory_id"@, uuid_hyphenated(self.inventory_id)),
            ("quantity"@, self.quantity@),
            ("reference_type"@, or_empty(opt_text(self.reference_type))),
            ("reference_id"@, match self.reference_id {
                Some(v) => uuid_hyphenated(v),
                None => Seq::empty(),
            }),
            ("reserved_until"@, match self.reserved_until {
                Some(t) => or_empty(spec_rfc3339(t)),
                None => Seq::empty(),
            }),
            ("status"@, self.status@),
            ("created_by_id"@, uuid_hyphenated(self.created_by_id)),
            ("created_by"@, self.created_by@),
            ("created_at"@, or_empty(spec_rfc3339(self.created_at))),
            ("updated_at"@, or_empty(spec_rfc3339(self.updated_at))),
        ]
    }

    /// Flattens the reservation into an ordered map from field name to text
    /// (see `spec_entries`); `None` when a time cannot be written.
    pub fn into_index_map(self) -> (r: Option<IndexMap<String, String>>)
        ensures
            r is Some <==> self.times_write(),
            r matches Some(m) ==> index_map_entries(m) == self.spec_entries(),
    {
        let ghost v = self;
        let reserved_until = match self.reserved_until {
            Some(t) => match rfc3339(t) {
                Some(s) => s,
                None => return None,
            },
            None => String::new(),
        };
        let created_at = match rfc3339(self.created_at) {
            Some(s) => s,
            None => return None,
        };
        let updated_at = match rfc3339(self.updated_at) {
            Some(s) => s,
            None => return None,
        };
        let reference_type = match self.reference_type {
            Some(t) => t,
            None => String::new(),
        };
        let reference_id = match self.reference_id {
            Some(r) => uuid_text(r),
            None => String::new(),
        };
        proof {
            reveal_strlit("id");
            reveal_strlit("inventory_id");
            reveal_strlit("quantity");
            reveal_strlit("reference_type");
            reveal_strlit("reference_id");
            reveal_strlit("reserved_until");
            reveal_strlit("status");
            reveal_strlit("created_by_id");
            reveal_strlit("created_by");
            reveal_strlit("created_at");
            reveal_strlit("updated_at");
            assert("id"@.len() == 2);
            assert("inventory_id"@.len() == 12);
            assert("quantity"@.len() == 8);
            assert("reference_type"@.len() == 14);
            assert("reference_id"@.len() == 12);
            assert("reserved_until"@.len() == 14);
            assert("status"@.len() == 6);
            assert("created_by_id"@.len() == 13);
            assert("created_by"@.len() == 10);
            assert("created_at"@.len() == 10);
            assert("updated_at"@.len() == 10);
            assert("inventory_id"@[0] != "reference_id"@[0]);
            assert("reference_type"@[2] != "reserved_until"@[2]);
            assert("created_by"@[8] != "created_at"@[8]);
            assert("created_by"@[0] != "updated_at"@[0]);
            assert("created_at"@[0] != "updated_at"@[0]);
        }
        let ghost target = v.spec_entries();
        let mut map = index_map_new();
        proof {
            lemma_insert_fresh(index_map_entries(map), "id"@, target[0].1);
        }
        index_map_insert(&mut map, "id".to_owned(), uuid_text(self.id));
        assert(index_map_entries(map) =~= target.take(1));
        proof {
            lemma_insert_fresh(index_map_entries(map), "inventory_id"@, target[1].1);
        }
        index_map_insert(&mut map, "inventory_id".to_owned(), uuid_text(self.inventory_id));
        assert(index_map_entries(map) =~= target.take(2));
        proof {
            lemma_insert_fresh(index_map_entries(map), "quantity"@, target[2].1);
        }
        index_map_insert(&mut map, "quantity".to_owned(), self.quantity);
        assert(index_map_entries(map) =~= target.take(3));
        proof {
            lemma_insert_fresh(index_map_entries(map), "reference_type"@, target[3].1);
        }
        index_map_insert(&mut map, "reference_type".to_owned(), reference_type);
        assert(index_map_entries(map) =~= target.take(4));
        proof {
            lemma_insert_fresh(index_map_entries(map), "reference_id"@, target[4].1);
        }
        index_map_insert(&mut map, "reference_id".to_owned(), reference_id);
        assert(index_map_entries(map) =~= target.take(5));
        proof {
            lemma_insert_fresh(index_map_entries(map), "reserved_until"@, target[5].1);
        }
        index_map_insert(&mut map, "reserved_until".to_owned(), reserved_until);
        assert(index_map_entries(map) =~= target.take(6));
        proof {
            lemma_insert_fresh(index_map_entries(map), "status"@, target[6].1);
        }
        index_map_insert(&mut map, "status".to_owned(), self.status);
        assert(index_map_entries(map) =~= target.take(7));
        proof {
            lemma_insert_fresh(index_map_entries(map), "created_by_id"@, target[7].1);
        }
        index_map_insert(&mut map, "created_by_id".to_owned(), uuid_text(self.created_by_id));
        assert(index_map_entries(map) =~= target.take(8));
        proof {
            lemma_insert_fresh(index_map_entries(map), "created_by"@, target[8].1);
        }
        index_map_insert(&mut map, "created_by".to_owned(), self.created_by);
        assert(index_map_entries(map) =~= target.take(9));
        proof {
            lemma_insert_fresh(index_map_entries(map), "created_at"@, target[9].1);
        }
        index_map_insert(&mut map, "created_at".to_owned(), created_at);
        assert(index_map_entries(map) =~= target.take(10));
        proof {
            lemma_insert_fresh(index_map_entries(map), "updated_at"@, target[10].1);
        }
        index_map_insert(&mut map, "updated_at".to_owned(), updated_at);
        assert(index_map_entries(map) =~= target.take(11));
        assert(target.take(11) =~= target);
        Some(map)
    }
}

} // verus!
