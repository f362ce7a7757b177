//! The Windows disk inventory: partitions and volumes from `Get-Partition`,
//! `Get-Volume` and `Get-Disk`, and mapped network shares from
//! `Get-SmbMapping`, each read from PowerShell's `ConvertTo-Json` output.
use vstd::prelude::*;
use crate::platform::api::RawDiskInventory;
use crate::json::{
    json_doc, json_field_view, json_record_view, json_values, json_values_spec, parse_json_doc,
    records_view, scalar_view, FieldView, JsonField, JsonScalar, ScalarView,
};
use crate::platform::windows::{
    chain_of, chain_within, children_of, children_spec, filesystem_family, filesystem_family_spec,
    logical_stack, parent_exec, parent_of, parent_views,
};
use crate::text::{chars_of, string_of, trim_end_char, trim_end_char_exec, trim_start_char, trim_start_char_exec};

verus! {

broadcast use vstd::string::group_string_axioms;

/// One record of a JSON list: the named fields in the order asked for, each
/// `None` when missing or `null`, else with whether it was a JSON string
/// and its text (a string's own text, or the JSON text of another value);
/// and the items of one list field (an array's items, or a lone value),
/// read in the same way; only string items count as entries of the list.
pub struct JsonRecord {
    pub fields: Vec<Option<(bool, String)>>,
    pub list: Vec<Option<(bool, String)>>,
}

pub open spec fn field_view(f: Option<(bool, String)>) -> Option<(bool, Seq<char>)> {
    match f {
        Some(p) => Some((p.0, p.1@)),
        None => None,
    }
}

pub open spec fn item_view(x: Option<String>) -> Option<Seq<char>> {
    match x {
        Some(s) => Some(s@),
        None => None,
    }
}

pub open spec fn record_view(r: JsonRecord) -> (Seq<Option<(bool, Seq<char>)>>, Seq<Option<(bool, Seq<char>)>>) {
    (
        r.fields@.map_values(|f: Option<(bool, String)>| field_view(f)),
        r.list@.map_values(|x: Option<(bool, String)>| field_view(x)),
    )
}

/// A value as the inventory reads it: none for `null`; else whether it is
/// a string, and its text (a string's own text, a number's text, or the JSON
/// text of anything else).
pub open spec fn scalar_pair(s: ScalarView) -> Option<(bool, Seq<char>)> {
    match s {
        ScalarView::Null => None,
        ScalarView::Str(t) => Some((true, t)),
        ScalarView::Num(t) => Some((false, t)),
        ScalarView::Other(t) => Some((false, t)),
    }
}

/// A field as the inventory reads it: none when missing, else its value as
/// `scalar_pair` reads it.
pub open spec fn field_pair(f: Option<FieldView>) -> Option<(bool, Seq<char>)> {
    match f {
        None => None,
        Some(fv) => scalar_pair(fv.value),
    }
}

/// A list field as the inventory reads it: an array's items, a lone value
/// as one item, no item when missing.
pub open spec fn list_pairs(f: Option<FieldView>) -> Seq<Option<(bool, Seq<char>)>> {
    match f {
        None => Seq::empty(),
        Some(fv) => match fv.items {
            Some(items) => items.map_values(|x: ScalarView| scalar_pair(x)),
            None => seq![scalar_pair(fv.value)],
        },
    }
}

/// A record with `n` named fields and then the list field.
pub open spec fn record_pairs(r: Seq<Option<FieldView>>, n: nat) -> (
    Seq<Option<(bool, Seq<char>)>>,
    Seq<Option<(bool, Seq<char>)>>,
) {
    (r.take(n as int).map_values(|f: Option<FieldView>| field_pair(f)), list_pairs(r[n as int]))
}

/// The records of `output` (see `json_values_spec`) with the fields `keys`
/// and the list field `list_key`; nothing when it is no JSON value.
pub open spec fn json_records_of(output: Seq<char>, keys: Seq<Seq<char>>, list_key: Seq<char>) -> Option<
    Seq<(Seq<Option<(bool, Seq<char>)>>, Seq<Option<(bool, Seq<char>)>>)>,
> {
    match json_doc(output, keys.push(list_key)) {
        None => None,
        Some(d) => Some(
            json_values_spec(d).map_values(|r: Seq<Option<FieldView>>| record_pairs(r, keys.len())),
        ),
    }
}

fn scalar_pair_exec(s: &JsonScalar) -> (r: Option<(bool, String)>)
    ensures
        field_view(r) == scalar_pair(scalar_view(*s)),
{
    match s {
        JsonScalar::Null => None,
        JsonScalar::Str(t) => Some((true, t.clone())),
        JsonScalar::Num(t) => Some((false, t.clone())),
        JsonScalar::Other(t) => Some((false, t.clone())),
    }
}

fn field_pair_exec(f: &Option<JsonField>) -> (r: Option<(bool, String)>)
    ensures
        field_view(r) == field_pair(json_field_view(*f)),
{
    match f {
        None => None,
        Some(p) => scalar_pair_exec(&p.0),
    }
}

fn list_pairs_exec(f: &Option<JsonField>) -> (r: Vec<Option<(bool, String)>>)
    ensures
        r@.map_values(|x: Option<(bool, String)>| field_view(x)) == list_pairs(json_field_view(*f)),
{
    let mut r: Vec<Option<(bool, String)>> = Vec::new();
    match f {
        None => {},
        Some((s, None)) => {
            r.push(scalar_pair_exec(s));
        },
        Some((_, Some(items))) => {
            let ghost iv = items@.map_values(|x: JsonScalar| scalar_view(x));
            let mut i: usize = 0;
            while i < items.len()
                invariant
                    i <= items.len(),
                    iv == items@.map_values(|x: JsonScalar| scalar_view(x)),
                    r@.len() == i,
                    forall|k: int| 0 <= k < i ==> field_view(#[trigger] r@[k]) == scalar_pair(iv[k]),
                decreases items.len() - i,
            {
                r.push(scalar_pair_exec(&items[i]));
                i += 1;
            }
        },
    }
    assert(r@.map_values(|x: Option<(bool, String)>| field_view(x)) =~= list_pairs(json_field_view(*f)));
    r
}

fn json_record(r: &Vec<Option<JsonField>>, n: usize) -> (out: JsonRecord)
    requires
        r@.len() == n + 1,
    ensures
        record_view(out) == record_pairs(json_record_view(r@), n as nat),
        out.fields.len() == n,
{
    let ghost rv = json_record_view(r@);
    let mut fields: Vec<Option<(bool, String)>> = Vec::new();
    let mut j: usize = 0;
    while j < n
        invariant
            j <= n,
            r@.len() == n + 1,
            rv == json_record_view(r@),
            fields@.len() == j,
            forall|k: int| 0 <= k < j ==> field_view(#[trigger] fields@[k]) == field_pair(rv[k]),
        decreases n - j,
    {
        fields.push(field_pair_exec(&r[j]));
        j += 1;
    }
    let list = list_pairs_exec(&r[n]);
    let out = JsonRecord { fields, list };
    assert(record_view(out).0 =~= record_pairs(rv, n as nat).0);
    out
}

/// The records of `output` with the fields `keys` and the list field
/// `list_key` (see `json_records_of`).
fn json_records(output: &str, keys: &Vec<&str>, list_key: &str) -> (r: Option<Vec<JsonRecord>>)
    requires
        keys.len() < usize::MAX,
    ensures
        match r {
            Some(v) => json_records_of(output@, keys@.map_values(|k: &str| k@), list_key@) == Some(
                v@.map_values(|x: JsonRecord| record_view(x)),
            ) && forall|i: int| 0 <= i < v.len() ==> (#[trigger] v@[i]).fields.len() == keys.len(),
            None => json_records_of(output@, keys@.map_values(|k: &str| k@), list_key@) is None,
        },
{
    let n = keys.len();
    let mut all: Vec<&str> = Vec::new();
    let mut i: usize = 0;
    while i < n
        invariant
            i <= n,
            n == keys.len(),
            all@ == keys@.take(i as int),
        decreases n - i,
    {
        all.push(keys[i]);
        assert(keys@.take(i + 1) =~= keys@.take(i as int).push(keys@[i as int]));
        i += 1;
    }
    all.push(list_key);
    assert(all@ =~= keys@.push(list_key));
    assert(all@.map_values(|k: &str| k@) =~= keys@.map_values(|k: &str| k@).push(list_key@));
    let doc = match parse_json_doc(output, &all) {
        Some(d) => d,
        None => return None,
    };
    let recs = json_values(doc);
    let ghost rv = records_view(recs@);
    assert(forall|j: int| 0 <= j < rv.len() ==> (#[trigger] rv[j]).len() == n + 1);
    let mut out: Vec<JsonRecord> = Vec::new();
    let mut k: usize = 0;
    while k < recs.len()
        invariant
            k <= recs.len(),
            n == keys.len(),
            rv == records_view(recs@),
            forall|j: int| 0 <= j < rv.len() ==> (#[trigger] rv[j]).len() == n + 1,
            out@.len() == k,
            forall|j: int| 0 <= j < k ==> record_view(#[trigger] out@[j]) == record_pairs(rv[j], n as nat),
            forall|j: int| 0 <= j < k ==> (#[trigger] out@[j]).fields.len() == n,
        decreases recs.len() - k,
    {
        assert(json_record_view(recs@[k as int]@) == rv[k as int]);
        let rec = json_record(&recs[k], n);
        out.push(rec);
        k += 1;
    }
    assert(out@.map_values(|x: JsonRecord| record_view(x)) =~= rv.map_values(
        |r: Seq<Option<FieldView>>| record_pairs(r, n as nat),
    ));
    Some(out)
}

/// The text of a field: a string as it is, another value's JSON text with
/// the quotes at either end taken off; none when missing or `null`.
pub open spec fn field_text(f: Option<(bool, Seq<char>)>) -> Option<Seq<char>> {
    match f {
        Some(p) => if p.0 {
            Some(p.1)
        } else {
            Some(trim_end_char(trim_start_char(p.1, '"'), '"'))
        },
        None => None,
    }
}

pub open spec fn or_empty(o: Option<Seq<char>>) -> Seq<char> {
    match o {
        Some(s) => s,
        None => Seq::empty(),
    }
}

pub open spec fn strs(v: Seq<String>) -> Seq<Seq<char>> {
    v.map_values(|s: String| s@)
}

fn field_string(f: &Option<(bool, String)>) -> (r: Option<String>)
    ensures
        item_view(r) == field_text(field_view(*f)),
{
    match f {
        Some(p) => if p.0 {
            Some(p.1.clone())
        } else {
            let t = trim_end_char_exec(&trim_start_char_exec(&chars_of(p.1.as_str()), '"'), '"');
            Some(string_of(&t))
        },
        None => None,
    }
}

fn field_or_empty(f: &Option<(bool, String)>) -> (r: String)
    ensures
        r@ == or_empty(field_text(field_view(*f))),
{
    match field_string(f) {
        Some(s) => s,
        None => String::new(),
    }
}

/// The non-empty string items of a list, in order.
pub open spec fn nonempty_texts(list: Seq<Option<(bool, Seq<char>)>>) -> Seq<Seq<char>>
    decreases list.len(),
{
    if list.len() == 0 {
        Seq::empty()
    } else {
        nonempty_texts(list.drop_last()) + match list.last() {
            Some(p) => if p.0 && p.1.len() > 0 {
                seq![p.1]
            } else {
                Seq::empty()
            },
            None => Seq::empty(),
        }
    }
}

fn mount_points(list: &Vec<Option<(bool, String)>>) -> (r: Vec<String>)
    ensures
        strs(r@) == nonempty_texts(list@.map_values(|x: Option<(bool, String)>| field_view(x))),
{
    let ghost lv = list@.map_values(|x: Option<(bool, String)>| field_view(x));
    let mut r: Vec<String> = Vec::new();
    let mut i: usize = 0;
    while i < list.len()
        invariant
            i <= list.len(),
            lv == list@.map_values(|x: Option<(bool, String)>| field_view(x)),
            strs(r@) == nonempty_texts(lv.take(i as int)),
        decreases list.len() - i,
    {
        assert(lv.take(i + 1).drop_last() =~= lv.take(i as int));
        assert(lv.take(i + 1).last() == lv[i as int]);
        let ghost before = r@;
        match &list[i] {
            Some(p) => if p.0 && !p.1.as_str().is_empty() {
                r.push(p.1.clone());
                assert(strs(r@) =~= strs(before).push(p.1@));
            },
            None => {},
        }
        i += 1;
    }
    assert(lv.take(list.len() as int) =~= lv);
    r
}

/// The fields asked of each partition, in this order.
pub open spec fn partition_keys() -> Seq<Seq<char>> {
    seq![
        "Device"@,
        "Parent"@,
        "Structure"@,
        "FileSystem"@,
        "Label"@,
        "Uuid"@,
        "PartUuid"@,
        "Model"@,
        "Serial"@,
        "Transport"@,
        "Reference"@,
    ]
}

/// The inventory entry of one partition record, before its children and
/// logical stack are known: missing texts are empty, the volume kind is
/// `windows-volume`, the filesystem family comes from the filesystem, and
/// the mount points are the record's non-empty access paths.
pub open spec fn partition_matches(
    r: RawDiskInventory,
    fs: Seq<Option<(bool, Seq<char>)>>,
    list: Seq<Option<(bool, Seq<char>)>>,
) -> bool {
    let t = |k: int| field_text(fs[k]);
    &&& r.device@ == or_empty(t(0))
    &&& item_view(r.parent) == t(1)
    &&& r.structure@ == or_empty(t(2))
    &&& r.volume_kind@ == "windows-volume"@
    &&& r.filesystem@ == or_empty(t(3))
    &&& r.filesystem_family@ == match t(3) {
        Some(x) => filesystem_family_spec(x),
        None => Seq::empty(),
    }
    &&& r.label@ == or_empty(t(4))
    &&& r.uuid@ == or_empty(t(5))
    &&& r.part_uuid@ == or_empty(t(6))
    &&& r.model@ == or_empty(t(7))
    &&& r.serial@ == or_empty(t(8))
    &&& r.transport@ == or_empty(t(9))
    &&& r.reference@ == or_empty(t(10))
    &&& r.scheduler@ == Seq::<char>::empty()
    &&& r.rotational is None && r.removable is None && r.read_only is None
    &&& strs(r.mount_points@) == nonempty_texts(list)
    &&& r.logical_stack@.len() == 0 && r.slaves@.len() == 0 && r.holders@.len() == 0 && r.children@.len() == 0
}

fn partition_entry(rec: &JsonRecord) -> (r: RawDiskInventory)
    requires
        rec.fields.len() == 11,
    ensures
        partition_matches(r, record_view(*rec).0, record_view(*rec).1),
{
    let f = &rec.fields;
    let filesystem_family = match field_string(&f[3]) {
        Some(x) => filesystem_family(x.as_str()),
        None => String::new(),
    };
    RawDiskInventory {
        device: field_or_empty(&f[0]),
        parent: field_string(&f[1]),
        structure: field_or_empty(&f[2]),
        volume_kind: "windows-volume".to_owned(),
        filesystem: field_or_empty(&f[3]),
        filesystem_family,
        label: field_or_empty(&f[4]),
        uuid: field_or_empty(&f[5]),
        part_uuid: field_or_empty(&f[6]),
        model: field_or_empty(&f[7]),
        serial: field_or_empty(&f[8]),
        transport: field_or_empty(&f[9]),
        reference: field_or_empty(&f[10]),
        scheduler: String::new(),
        rotational: None,
        removable: None,
        read_only: None,
        mount_points: mount_points(&rec.list),
        logical_stack: Vec::new(),
        slaves: Vec::new(),
        holders: Vec::new(),
        children: Vec::new(),
    }
}

/// The partition entries of the output of the partition listing, in order;
/// none when it is no JSON.
pub fn partition_entries(output: &str) -> (r: Vec<RawDiskInventory>)
    ensures
        match json_records_of(output@, partition_keys(), "MountPoints"@) {
            Some(recs) => r.len() == recs.len() && forall|k: int|
                0 <= k < recs.len() ==> partition_matches(#[trigger] r@[k], recs[k].0, recs[k].1),
            None => r.len() == 0,
        },
{
    let keys: Vec<&str> = vec![
        "Device",
        "Parent",
        "Structure",
        "FileSystem",
        "Label",
        "Uuid",
        "PartUuid",
        "Model",
        "Serial",
        "Transport",
        "Reference",
    ];
    assert(keys@.map_values(|k: &str| k@) =~= partition_keys());
    let recs = match json_records(output, &keys, "MountPoints") {
        Some(v) => v,
        None => return Vec::new(),
    };
    let ghost rv = recs@.map_values(|x: JsonRecord| record_view(x));
    let mut r: Vec<RawDiskInventory> = Vec::new();
    let mut i: usize = 0;
    while i < recs.len()
        invariant
            i <= recs.len(),
            rv == recs@.map_values(|x: JsonRecord| record_view(x)),
            forall|j: int| 0 <= j < recs.len() ==> (#[trigger] recs@[j]).fields.len() == 11,
            r.len() == i,
            forall|k: int| 0 <= k < i ==> partition_matches(#[trigger] r@[k], rv[k].0, rv[k].1),
        decreases recs.len() - i,
    {
        let e = partition_entry(&recs[i]);
        r.push(e);
        i += 1;
    }
    r
}


// ─── Mapped network shares ──────────────────────────────────────────────────
/// The fields asked of each share mapping, in this order.
pub open spec fn mapping_keys() -> Seq<Seq<char>> {
    seq!["LocalPath"@, "RemotePath"@]
}

/// The device of a mapping: its local path, else its remote path.
pub open spec fn mapping_device(fs: Seq<Option<(bool, Seq<char>)>>) -> Option<Seq<char>> {
    match field_text(fs[0]) {
        Some(d) => Some(d),
        None => field_text(fs[1]),
    }
}

/// The inventory entry of a mapped share: a remote mount of the `smb`
/// family, labelled and stacked by its remote path (by its device when that
/// is empty), mounted at its device.
pub open spec fn mapping_matches(r: RawDiskInventory, fs: Seq<Option<(bool, Seq<char>)>>) -> bool {
    let d = mapping_device(fs)->0;
    let remote = or_empty(field_text(fs[1]));
    let name = if remote.len() == 0 {
        d
    } else {
        remote
    };
    &&& r.device@ == d
    &&& r.parent is None
    &&& r.structure@ == "remote-mount"@
    &&& r.volume_kind@ == "smb-share"@
    &&& r.filesystem@ == "smb"@
    &&& r.filesystem_family@ == "remote"@
    &&& r.label@ == name
    &&& r.uuid@.len() == 0 && r.part_uuid@.len() == 0 && r.model@.len() == 0 && r.serial@.len() == 0
    &&& r.transport@ == "smb"@
    &&& r.reference@ == remote
    &&& r.scheduler@.len() == 0
    &&& r.rotational is None && r.removable is None && r.read_only is None
    &&& strs(r.mount_points@) == seq![d]
    &&& strs(r.logical_stack@) == seq![name]
    &&& r.slaves@.len() == 0 && r.holders@.len() == 0 && r.children@.len() == 0
}

/// The mapping records that name a device, in order.
pub open spec fn mapped(recs: Seq<(Seq<Option<(bool, Seq<char>)>>, Seq<Option<(bool, Seq<char>)>>)>) -> Seq<
    Seq<Option<(bool, Seq<char>)>>,
>
    decreases recs.len(),
{
    if recs.len() == 0 {
        Seq::empty()
    } else {
        mapped(recs.drop_last()) + if mapping_device(recs.last().0) is Some {
            seq![recs.last().0]
        } else {
            Seq::empty()
        }
    }
}

fn one(s: String) -> (r: Vec<String>)
    ensures
        strs(r@) == seq![s@],
{
    let mut v: Vec<String> = Vec::new();
    v.push(s);
    assert(strs(v@) =~= seq![s@]);
    v
}

fn mapping_entry(rec: &JsonRecord) -> (r: Option<RawDiskInventory>)
    requires
        rec.fields.len() == 2,
    ensures
        match r {
            Some(e) => mapping_device(record_view(*rec).0) is Some && mapping_matches(e, record_view(*rec).0),
            None => mapping_device(record_view(*rec).0) is None,
        },
{
    let device = match field_string(&rec.fields[0]) {
        Some(d) => d,
        None => match field_string(&rec.fields[1]) {
            Some(d) => d,
            None => return None,
        },
    };
    let remote = field_or_empty(&rec.fields[1]);
    let name = if remote.as_str().is_empty() {
        device.clone()
    } else {
        remote.clone()
    };
    Some(
        RawDiskInventory {
            device: device.clone(),
            parent: None,
            structure: "remote-mount".to_owned(),
            volume_kind: "smb-share".to_owned(),
            filesystem: "smb".to_owned(),
            filesystem_family: "remote".to_owned(),
            label: name.clone(),
            uuid: String::new(),
            part_uuid: String::new(),
            model: String::new(),
            serial: String::new(),
            transport: "smb".to_owned(),
            reference: remote,
            scheduler: String::new(),
            rotational: None,
            removable: None,
            read_only: None,
            mount_points: one(device),
            logical_stack: one(name),
            slaves: Vec::new(),
            holders: Vec::new(),
            children: Vec::new(),
        },
    )
}

/// The entries of the mapped shares in the output of the mapping listing;
/// a mapping with neither path is skipped; none when it is no JSON.
pub fn mapping_entries(output: &str) -> (r: Vec<RawDiskInventory>)
    ensures
        match json_records_of(output@, mapping_keys(), ""@) {
            Some(recs) => r.len() == mapped(recs).len() && forall|k: int|
                0 <= k < r.len() ==> mapping_matches(#[trigger] r@[k], mapped(recs)[k]),
            None => r.len() == 0,
        },
{
    let keys: Vec<&str> = vec!["LocalPath", "RemotePath"];
    assert(keys@.map_values(|k: &str| k@) =~= mapping_keys());
    // a mapping has no list field
    let recs = match json_records(output, &keys, "") {
        Some(v) => v,
        None => return Vec::new(),
    };
    let ghost rv = recs@.map_values(|x: JsonRecord| record_view(x));
    let mut r: Vec<RawDiskInventory> = Vec::new();
    let mut i: usize = 0;
    while i < recs.len()
        invariant
            i <= recs.len(),
            rv == recs@.map_values(|x: JsonRecord| record_view(x)),
            forall|j: int| 0 <= j < recs.len() ==> (#[trigger] recs@[j]).fields.len() == 2,
            r.len() == mapped(rv.take(i as int)).len(),
            forall|k: int| 0 <= k < r.len() ==> mapping_matches(#[trigger] r@[k], mapped(rv.take(i as int))[k]),
        decreases recs.len() - i,
    {
        assert(rv.take(i + 1).drop_last() =~= rv.take(i as int));
        assert(rv.take(i + 1).last() == rv[i as int]);
        match mapping_entry(&recs[i]) {
            Some(e) => {
                r.push(e);
            },
            None => {},
        }
        i += 1;
    }
    assert(rv.take(recs.len() as int) =~= rv);
    r
}

// ─── Children and stacks ────────────────────────────────────────────────────
/// Each entry's device and parent.
pub open spec fn entry_parents(items: Seq<RawDiskInventory>) -> Seq<(Seq<char>, Option<Seq<char>>)> {
    items.map_values(|i: RawDiskInventory| (i.device@, item_view(i.parent)))
}

/// Every entry's chain of parents ends within one step more than there are
/// entries (it does not on a cycle).
pub open spec fn chains_end(items: Seq<RawDiskInventory>) -> bool {
    forall|k: int|
        0 <= k < items.len() ==> #[trigger] chain_within(entry_parents(items), items[k].device@, (items.len() + 1) as nat) is Some
}

/// `r` is `e` with its children (the entries whose parent it is, in order)
/// and its logical stack (its chain of parents, outermost first) filled in.
pub open spec fn linked(r: RawDiskInventory, e: RawDiskInventory, m: Seq<(Seq<char>, Option<Seq<char>>)>) -> bool {
    &&& r.device@ == e.device@
    &&& item_view(r.parent) == item_view(e.parent)
    &&& r.structure@ == e.structure@
    &&& r.volume_kind@ == e.volume_kind@
    &&& r.filesystem@ == e.filesystem@
    &&& r.filesystem_family@ == e.filesystem_family@
    &&& r.label@ == e.label@
    &&& r.uuid@ == e.uuid@
    &&& r.part_uuid@ == e.part_uuid@
    &&& r.model@ == e.model@
    &&& r.serial@ == e.serial@
    &&& r.transport@ == e.transport@
    &&& r.reference@ == e.reference@
    &&& r.scheduler@ == e.scheduler@
    &&& r.rotational == e.rotational && r.removable == e.removable && r.read_only == e.read_only
    &&& strs(r.mount_points@) == strs(e.mount_points@)
    &&& strs(r.slaves@) == strs(e.slaves@)
    &&& strs(r.holders@) == strs(e.holders@)
    &&& strs(r.children@) == children_spec(m, e.device@)
    &&& strs(r.logical_stack@) == chain_of(m, e.device@).reverse()
}

fn chain_ends(parents: &Vec<(String, Option<String>)>, device: &str, limit: usize) -> (r: bool)
    ensures
        r == (chain_within(parent_views(parents@), device@, limit as nat) is Some),
{
    let ghost pv = parent_views(parents@);
    let mut cur: String = device.to_owned();
    let mut left: usize = limit;
    loop
        invariant
            pv == parent_views(parents@),
            (chain_within(pv, device@, limit as nat) is Some) == (chain_within(pv, cur@, left as nat) is Some),
        decreases left,
    {
        if left == 0 {
            return false;
        }
        match parent_exec(parents, cur.as_str()) {
            None => return true,
            Some(p) => {
                cur = p;
                left -= 1;
            },
        }
    }
}

/// The entries with their children and logical stacks filled in; `None`
/// where some chain of parents does not end (the parents form a cycle).
pub fn link_entries(items: Vec<RawDiskInventory>) -> (r: Option<Vec<RawDiskInventory>>)
    requires
        items@.len() < usize::MAX,
    ensures
        r is Some <==> chains_end(items@),
        match r {
            Some(v) => v.len() == items.len() && forall|k: int|
                0 <= k < items.len() ==> linked(#[trigger] v@[k], items@[k], entry_parents(items@)),
            None => true,
        },
{
    let ghost orig = items@;
    let ghost pv = entry_parents(orig);
    let mut parents: Vec<(String, Option<String>)> = Vec::new();
    let mut i: usize = 0;
    while i < items.len()
        invariant
            i <= items.len(),
            items@ == orig,
            parents@.len() == i,
            parent_views(parents@) == entry_parents(orig.take(i as int)),
        decreases items.len() - i,
    {
        let p = match &items[i].parent {
            Some(x) => Some(x.clone()),
            None => None,
        };
        let ghost before = parents@;
        parents.push((items[i].device.clone(), p));
        assert forall|j: int| 0 <= j <= i implies #[trigger] parent_views(parents@)[j] == entry_parents(
            orig.take(i + 1),
        )[j] by {
            if j < i {
                assert(parents@[j] == before[j]);
                assert(parent_views(before)[j] == entry_parents(orig.take(i as int))[j]);
            }
        }
        assert(parent_views(parents@) =~= entry_parents(orig.take(i + 1)));
        i += 1;
    }
    assert(orig.take(orig.len() as int) =~= orig);
    let limit = items.len() + 1;
    let mut k: usize = 0;
    while k < items.len()
        invariant
            k <= items.len(),
            items@ == orig,
            parent_views(parents@) == pv,
            pv == entry_parents(orig),
            limit == orig.len() + 1,
            forall|j: int| 0 <= j < k ==> #[trigger] chain_within(pv, orig[j].device@, limit as nat) is Some,
        decreases items.len() - k,
    {
        let ok = chain_ends(&parents, items[k].device.as_str(), limit);
        if !ok {
            assert(items@[k as int] == orig[k as int]);
            assert(!(chain_within(pv, orig[k as int].device@, limit as nat) is Some));
            assert(!chains_end(orig)) by {
                assert(!(chain_within(entry_parents(orig), orig[k as int].device@, (orig.len() + 1) as nat) is Some));
            }
            return None;
        }
        k += 1;
    }
    let mut items = items;
    let mut out: Vec<RawDiskInventory> = Vec::new();
    while items.len() > 0
        invariant
            out.len() + items.len() == orig.len(),
            items@ == orig.skip(out.len() as int),
            parent_views(parents@) == pv,
            pv == entry_parents(orig),
            chains_end(orig),
            forall|j: int| 0 <= j < out.len() ==> linked(#[trigger] out@[j], orig[j], pv),
        decreases items.len(),
    {
        let ghost at = out.len() as int;
        assert(items@[0] == orig[at]);
        let mut e = items.remove(0);
        assert(e == orig[at]);
        assert(items@ =~= orig.skip(at + 1));
        assert(chain_within(pv, orig[at].device@, (orig.len() + 1) as nat) is Some);
        let children = children_of(e.device.as_str(), &parents);
        let stack = logical_stack(e.device.as_str(), &parents);
        assert(strs(children@) =~= children@.map_values(|s: String| s@));
        assert(strs(stack@) =~= stack@.map_values(|s: String| s@));
        e.children = children;
        e.logical_stack = stack;
        out.push(e);
        assert(linked(out@[at], orig[at], pv));
    }
    Some(out)
}


// ─── The inventory ──────────────────────────────────────────────────────────
/// The partition records of the partition listing's output; none without
/// output or JSON.
pub open spec fn partition_records(output: Option<Seq<char>>) -> Seq<
    (Seq<Option<(bool, Seq<char>)>>, Seq<Option<(bool, Seq<char>)>>),
> {
    match output {
        Some(o) => match json_records_of(o, partition_keys(), "MountPoints"@) {
            Some(recs) => recs,
            None => Seq::empty(),
        },
        None => Seq::empty(),
    }
}

/// The mapping records with a device of the mapping listing's output.
pub open spec fn mapping_records(output: Option<Seq<char>>) -> Seq<Seq<Option<(bool, Seq<char>)>>> {
    match output {
        Some(o) => match json_records_of(o, mapping_keys(), ""@) {
            Some(recs) => mapped(recs),
            None => Seq::empty(),
        },
        None => Seq::empty(),
    }
}

/// `items` are the partition entries, then the share entries.
pub open spec fn entries_are(
    items: Seq<RawDiskInventory>,
    parts: Seq<(Seq<Option<(bool, Seq<char>)>>, Seq<Option<(bool, Seq<char>)>>)>,
    maps: Seq<Seq<Option<(bool, Seq<char>)>>>,
) -> bool {
    &&& items.len() == parts.len() + maps.len()
    &&& forall|k: int| 0 <= k < parts.len() ==> partition_matches(#[trigger] items[k], parts[k].0, parts[k].1)
    &&& forall|k: int| 0 <= k < maps.len() ==> mapping_matches(#[trigger] items[parts.len() + k], maps[k])
}

/// The disk inventory from the outputs of the partition listing and the
/// share-mapping listing (`None` where a listing gave nothing): the
/// partitions, then the shares, each with its children and logical stack.
/// `None` where the parents form a cycle.
pub fn read_disk_inventory(partitions: Option<String>, mappings: Option<String>) -> (r: Option<
    Vec<RawDiskInventory>,
>)
    ensures
        exists|items: Seq<RawDiskInventory>|
            #[trigger] entries_are(
                items,
                partition_records(item_view(partitions)),
                mapping_records(item_view(mappings)),
            ) && (r is Some ==> chains_end(items)) && (chains_end(items) && items.len() < usize::MAX ==> r is Some)
                && match r {
                Some(v) => v.len() == items.len() && forall|k: int|
                    0 <= k < items.len() ==> linked(#[trigger] v@[k], items[k], entry_parents(items)),
                None => true,
            },
{
    let mut all: Vec<RawDiskInventory> = match &partitions {
        Some(o) => partition_entries(o.as_str()),
        None => Vec::new(),
    };
    let mut more: Vec<RawDiskInventory> = match &mappings {
        Some(o) => mapping_entries(o.as_str()),
        None => Vec::new(),
    };
    let ghost a = all@;
    let ghost b = more@;
    all.append(&mut more);
    assert(all@ =~= a + b);
    let ghost items = all@;
    assert(entries_are(items, partition_records(item_view(partitions)), mapping_records(item_view(mappings))));
    if all.len() == usize::MAX {
        // no list of entries is that long
        return None;
    }
    link_entries(all)
}

} // verus!
