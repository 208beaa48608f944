//! Instance records and the ordered catalog that holds them.
use vstd::prelude::*;

use crate::text::{
    contains, copy_opt, is_substring, opt_view, or_empty, pad_left, pad_right, padded_left,
    padded_right, unwrap_or_str,
};

verus! {

/// One compute instance as the catalog sees it. Every field may be absent.
#[derive(Debug, Clone, PartialEq, Eq, Hash, Default)]
pub struct InstanceDetails {
    pub public_ip: Option<String>,
    pub private_ip: Option<String>,
    pub instance_id: Option<String>,
    pub instance_name: Option<String>,
}

/// The name that the filter and the table read: an absent name is empty.
pub open spec fn name_of(d: InstanceDetails) -> Seq<char> {
    or_empty(d.instance_name)
}

/// A field as the list label shows it: `None` when absent.
pub open spec fn label_field(o: Option<String>) -> Seq<char> {
    match o {
        Some(s) => s@,
        None => seq!['N', 'o', 'n', 'e'],
    }
}

/// The one-line label of a record in the selection list.
pub open spec fn display_label(d: InstanceDetails) -> Seq<char> {
    pad_right(label_field(d.instance_name), 32) + seq![' ', '|', ' ', 'p', 'r', 'i', 'v', '_', 'i', 'p', ':', ' ']
        + pad_right(label_field(d.private_ip), 12) + seq![' ', '|', ' ', 'p', 'u', 'b', '_', 'i', 'p', ':', ' ']
        + pad_left(label_field(d.public_ip), 12) + seq![' ', '|', ' ']
        + pad_right(label_field(d.instance_id), 32)
}

/// The value of the first tag whose key is `Name`, if any.
pub open spec fn name_tag(tags: Seq<(Option<String>, Option<String>)>) -> Option<String>
    decreases tags.len(),
{
    if tags.len() == 0 {
        None
    } else if opt_view(tags[0].0) == Some(seq!['N', 'a', 'm', 'e']) {
        tags[0].1
    } else {
        name_tag(tags.drop_first())
    }
}

/// The records of `records` whose name holds `search`, in their order.
pub open spec fn matching(records: Seq<InstanceDetails>, search: Seq<char>) -> Seq<InstanceDetails>
    decreases records.len(),
{
    if records.len() == 0 {
        records
    } else {
        let rest = matching(records.drop_last(), search);
        if is_substring(search, name_of(records.last())) {
            rest.push(records.last())
        } else {
            rest
        }
    }
}

impl InstanceDetails {
    /// A record from the fields an instance listing reports, its name taken
    /// from the tag whose key is `Name`.
    pub fn from_parts(
        public_ip: Option<String>,
        private_ip: Option<String>,
        instance_id: Option<String>,
        tags: &Vec<(Option<String>, Option<String>)>,
    ) -> (r: Self)
        ensures
            r.public_ip == public_ip,
            r.private_ip == private_ip,
            r.instance_id == instance_id,
            r.instance_name == name_tag(tags@),
    {
        InstanceDetails {
            public_ip,
            private_ip,
            instance_id,
            instance_name: Self::extract_instance_name(tags),
        }
    }

    /// The value of the first tag keyed `Name`.
    pub fn extract_instance_name(tags: &Vec<(Option<String>, Option<String>)>) -> (r: Option<
        String,
    >)
        ensures
            r == name_tag(tags@),
    {
        let key = String::from_str("Name");
        proof {
            reveal_strlit("Name");
        }
        let mut i: usize = tags.len();
        let mut found: Option<String> = None;
        // Walk from the back so that the first match is the one kept.
        while i > 0
            invariant
                i <= tags@.len(),
                key@ == seq!['N', 'a', 'm', 'e'],
                found == name_tag(tags@.subrange(i as int, tags@.len() as int)),
            decreases i,
        {
            i = i - 1;
            let ghost tail = tags@.subrange(i as int, tags@.len() as int);
            assert(tail.drop_first() =~= tags@.subrange(i + 1, tags@.len() as int));
            let is_name = match &tags[i].0 {
                Some(k) => *k == key,
                None => false,
            };
            if is_name {
                found = copy_opt(&tags[i].1);
            }
        }
        assert(tags@.subrange(0, tags@.len() as int) =~= tags@);
        found
    }

    /// An exact copy of this record.
    pub fn duplicate(&self) -> (r: Self)
        ensures
            r == *self,
    {
        InstanceDetails {
            public_ip: copy_opt(&self.public_ip),
            private_ip: copy_opt(&self.private_ip),
            instance_id: copy_opt(&self.instance_id),
            instance_name: copy_opt(&self.instance_name),
        }
    }

    /// Whether all four fields are absent.
    pub fn is_empty(&self) -> (r: bool)
        ensures
            r == (self.public_ip is None && self.private_ip is None && self.instance_id is None
                && self.instance_name is None),
    {
        self.public_ip.is_none() && self.private_ip.is_none() && self.instance_id.is_none()
            && self.instance_name.is_none()
    }

    /// The label of this record in the selection list: name, private and
    /// public address and id in fixed-width columns, `None` for an absent field.
    pub fn display_name(&self) -> (r: String)
        ensures
            r@ == display_label(*self),
    {
        proof {
            reveal_strlit("None");
            reveal_strlit(" | priv_ip: ");
            reveal_strlit(" | pub_ip: ");
            reveal_strlit(" | ");
        }
        let name = unwrap_or_str(&self.instance_name, "None");
        let private_ip = unwrap_or_str(&self.private_ip, "None");
        let public_ip = unwrap_or_str(&self.public_ip, "None");
        let instance_id = unwrap_or_str(&self.instance_id, "None");
        let mut r = padded_right(name.as_str(), 32);
        r.append(" | priv_ip: ");
        let p = padded_right(private_ip.as_str(), 12);
        r.append(p.as_str());
        r.append(" | pub_ip: ");
        let q = padded_left(public_ip.as_str(), 12);
        r.append(q.as_str());
        r.append(" | ");
        let t = padded_right(instance_id.as_str(), 32);
        r.append(t.as_str());
        assert(r@ =~= display_label(*self));
        r
    }

    /// The four cells of this record's row in the instance table (name,
    /// public address, private address, id), empty for an absent field.
    pub fn table_cells(&self) -> (r: Vec<String>)
        ensures
            r@.len() == 4,
            r@[0]@ == name_of(*self),
            r@[1]@ == or_empty(self.public_ip),
            r@[2]@ == or_empty(self.private_ip),
            r@[3]@ == or_empty(self.instance_id),
    {
        proof {
            reveal_strlit("");
        }
        let mut r: Vec<String> = Vec::new();
        r.push(unwrap_or_str(&self.instance_name, ""));
        r.push(unwrap_or_str(&self.public_ip, ""));
        r.push(unwrap_or_str(&self.private_ip, ""));
        r.push(unwrap_or_str(&self.instance_id, ""));
        r
    }

    /// Whether this record's name (empty when absent) holds `search`.
    pub fn name_contains(&self, search: &str) -> (r: bool)
        ensures
            r == is_substring(search@, name_of(*self)),
    {
        match &self.instance_name {
            Some(n) => contains(n.as_str(), search),
            None => {
                proof {
                    reveal_strlit("");
                    assert(""@ =~= Seq::<char>::empty());
                }
                contains("", search)
            },
        }
    }
}

/// An ordered catalog of instance records, in the order of their source.
#[derive(Debug, Clone, PartialEq, Eq)]
pub struct InstanceSet {
    pub instances: Vec<InstanceDetails>,
}

impl InstanceSet {
    pub fn new(instances: Vec<InstanceDetails>) -> (r: Self)
        ensures
            r.instances@ == instances@,
    {
        InstanceSet { instances }
    }

    /// An exact copy of this catalog.
    pub fn duplicate(&self) -> (r: Self)
        ensures
            r.instances@ == self.instances@,
    {
        let mut v: Vec<InstanceDetails> = Vec::new();
        let mut i: usize = 0;
        while i < self.instances.len()
            invariant
                i <= self.instances@.len(),
                v@ == self.instances@.subrange(0, i as int),
            decreases self.instances@.len() - i,
        {
            v.push(self.instances[i].duplicate());
            i = i + 1;
            assert(v@ =~= self.instances@.subrange(0, i as int));
        }
        assert(v@ =~= self.instances@);
        InstanceSet { instances: v }
    }

    /// The records whose name (empty when absent) holds `search` as a
    /// literal, case-sensitive substring, in catalog order.
    pub fn filter(&self, search: &str) -> (r: Self)
        ensures
            r.instances@ == matching(self.instances@, search@),
    {
        let mut v: Vec<InstanceDetails> = Vec::new();
        let mut i: usize = 0;
        while i < self.instances.len()
            invariant
                i <= self.instances@.len(),
                v@ == matching(self.instances@.subrange(0, i as int), search@),
            decreases self.instances@.len() - i,
        {
            let ghost prefix = self.instances@.subrange(0, i as int + 1);
            assert(prefix.drop_last() =~= self.instances@.subrange(0, i as int));
            assert(prefix.last() == self.instances@[i as int]);
            if self.instances[i].name_contains(search) {
                v.push(self.instances[i].duplicate());
            }
            i = i + 1;
        }
        assert(self.instances@.subrange(0, i as int) =~= self.instances@);
        InstanceSet { instances: v }
    }

    /// Whether the catalog holds exactly one record, which can then be taken
    /// as chosen without asking.
    pub fn is_non_selectable(&self) -> (r: bool)
        ensures
            r == (self.instances@.len() == 1),
    {
        self.instances.len() == 1
    }

    /// The one record of a catalog that holds exactly one, which is then
    /// taken as chosen without opening the selection list.
    pub fn sole_instance(&self) -> (r: Option<InstanceDetails>)
        ensures
            r == (if self.instances@.len() == 1 {
                Some(self.instances@[0])
            } else {
                None
            }),
    {
        if self.instances.len() == 1 {
            Some(self.instances[0].duplicate())
        } else {
            None
        }
    }

    /// The rows of the instance table, one per record in catalog order.
    pub fn table_rows(&self) -> (r: Vec<Vec<String>>)
        ensures
            r@.len() == self.instances@.len(),
            forall|i: int|
                0 <= i < r@.len() ==> {
                    let d = #[trigger] self.instances@[i];
                    &&& r@[i]@.len() == 4
                    &&& r@[i]@[0]@ == name_of(d)
                    &&& r@[i]@[1]@ == or_empty(d.public_ip)
                    &&& r@[i]@[2]@ == or_empty(d.private_ip)
                    &&& r@[i]@[3]@ == or_empty(d.instance_id)
                },
    {
        let mut r: Vec<Vec<String>> = Vec::new();
        let mut i: usize = 0;
        while i < self.instances.len()
            invariant
                i <= self.instances@.len(),
                r@.len() == i,
                forall|k: int|
                    0 <= k < i ==> {
                        let d = #[trigger] self.instances@[k];
                        &&& r@[k]@.len() == 4
                        &&& r@[k]@[0]@ == name_of(d)
                        &&& r@[k]@[1]@ == or_empty(d.public_ip)
                        &&& r@[k]@[2]@ == or_empty(d.private_ip)
                        &&& r@[k]@[3]@ == or_empty(d.instance_id)
                    },
            decreases self.instances@.len() - i,
        {
            r.push(self.instances[i].table_cells());
            i = i + 1;
        }
        r
    }
}

/// Every record that the filter keeps has the search string in its name
/// (an absent name read as empty), and every kept record comes from the
/// catalog.
pub proof fn lemma_filter_only_matches(records: Seq<InstanceDetails>, search: Seq<char>)
    ensures
        forall|i: int|
            0 <= i < matching(records, search).len() ==> is_substring(
                search,
                name_of(#[trigger] matching(records, search)[i]),
            ) && records.contains(matching(records, search)[i]),
    decreases records.len(),
{
    if records.len() > 0 {
        lemma_filter_only_matches(records.drop_last(), search);
        let rest = matching(records.drop_last(), search);
        assert forall|i: int| 0 <= i < matching(records, search).len() implies is_substring(
            search,
            name_of(#[trigger] matching(records, search)[i]),
        ) && records.contains(matching(records, search)[i]) by {
            if i < rest.len() {
                assert(rest[i] == matching(records, search)[i]);
                let j = choose|j: int| 0 <= j < records.drop_last().len() && records.drop_last()[j] == rest[i];
                assert(records[j] == rest[i]);
            } else {
                assert(records[records.len() - 1] == records.last());
            }
        }
    }
}

/// Filtering by the empty string keeps the whole catalog, in order.
pub proof fn lemma_filter_empty_keeps_all(records: Seq<InstanceDetails>)
    ensures
        matching(records, Seq::empty()) == records,
    decreases records.len(),
{
    if records.len() > 0 {
        lemma_filter_empty_keeps_all(records.drop_last());
        let e = Seq::<char>::empty();
        assert(name_of(records.last()).subrange(0, 0 + e.len() as int) =~= e);
        assert(is_substring(Seq::empty(), name_of(records.last())));
        assert(records.drop_last().push(records.last()) =~= records);
    }
}

} // verus!
