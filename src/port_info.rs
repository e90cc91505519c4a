//! Port descriptors, as enumeration reports them, and their flat
//! key/value rendering for hosts that consume maps.

use vstd::prelude::*;

verus! {

/// What enumeration reports of a USB-attached port.
pub struct UsbInfo {
    pub vid: u16,
    pub pid: u16,
    pub serial_number: Option<String>,
    pub manufacturer: Option<String>,
    pub product: Option<String>,
}

/// How a port is attached to the host.
pub enum PortKind {
    Usb(UsbInfo),
    Other,
}

/// A snapshot of one port seen at enumeration time.
pub struct PortDescriptor {
    pub name: String,
    pub kind: PortKind,
}

/// The keys of a rendered descriptor.
#[derive(PartialEq, Eq, Structural, Clone, Copy, Debug)]
pub enum EntryKey {
    Name,
    Type,
    Vid,
    Pid,
    Sn,
    Manufacture,
    Product,
}

/// The value held under one key of a rendered descriptor.
pub enum FieldValue {
    Text(String),
    Number(u16),
}

/// The mathematical value of a `FieldValue`.
pub enum FieldView {
    Text(Seq<char>),
    Number(u16),
}

impl View for FieldValue {
    type V = FieldView;

    open spec fn view(&self) -> FieldView {
        match self {
            FieldValue::Text(s) => FieldView::Text(s@),
            FieldValue::Number(n) => FieldView::Number(*n),
        }
    }
}

/// One key with its value.
pub struct Entry {
    pub key: EntryKey,
    pub value: FieldValue,
}

impl View for Entry {
    type V = (EntryKey, FieldView);

    open spec fn view(&self) -> (EntryKey, FieldView) {
        (self.key, self.value@)
    }
}

/// An optional text field, with an absent one read as the empty text.
pub open spec fn text_or_empty(o: Option<String>) -> Seq<char> {
    match o {
        Some(s) => s@,
        None => Seq::empty(),
    }
}

/// The text under the `Type` key of a USB port.
pub open spec fn usb_type_text() -> Seq<char> {
    seq!['u', 's', 'b']
}

/// The rendering of a descriptor: the name always, and the USB fields only
/// for a USB port, with missing optional texts as empty texts.
pub open spec fn entries_of(d: PortDescriptor) -> Seq<(EntryKey, FieldView)> {
    let name = (EntryKey::Name, FieldView::Text(d.name@));
    match d.kind {
        PortKind::Usb(u) => seq![
            name,
            (EntryKey::Type, FieldView::Text(usb_type_text())),
            (EntryKey::Vid, FieldView::Number(u.vid)),
            (EntryKey::Pid, FieldView::Number(u.pid)),
            (EntryKey::Sn, FieldView::Text(text_or_empty(u.serial_number))),
            (EntryKey::Manufacture, FieldView::Text(text_or_empty(u.manufacturer))),
            (EntryKey::Product, FieldView::Text(text_or_empty(u.product))),
        ],
        PortKind::Other => seq![name],
    }
}

/// Whether some entry of `es` has the key `k`.
pub open spec fn has_key(es: Seq<(EntryKey, FieldView)>, k: EntryKey) -> bool {
    exists|i: int| 0 <= i < es.len() && (#[trigger] es[i]).0 == k
}

impl EntryKey {
    /// The text of the key.
    pub fn as_str(&self) -> (r: &'static str)
        ensures
            r@ == key_text(*self),
    {
        match self {
            EntryKey::Name => {
                proof {
                    reveal_strlit("name");
                }
                "name"
            },
            EntryKey::Type => {
                proof {
                    reveal_strlit("type");
                }
                "type"
            },
            EntryKey::Vid => {
                proof {
                    reveal_strlit("vid");
                }
                "vid"
            },
            EntryKey::Pid => {
                proof {
                    reveal_strlit("pid");
                }
                "pid"
            },
            EntryKey::Sn => {
                proof {
                    reveal_strlit("sn");
                }
                "sn"
            },
            EntryKey::Manufacture => {
                proof {
                    reveal_strlit("manufacture");
                }
                "manufacture"
            },
            EntryKey::Product => {
                proof {
                    reveal_strlit("product");
                }
                "product"
            },
        }
    }
}

/// The text of each key.
pub open spec fn key_text(k: EntryKey) -> Seq<char> {
    match k {
        EntryKey::Name => seq!['n', 'a', 'm', 'e'],
        EntryKey::Type => seq!['t', 'y', 'p', 'e'],
        EntryKey::Vid => seq!['v', 'i', 'd'],
        EntryKey::Pid => seq!['p', 'i', 'd'],
        EntryKey::Sn => seq!['s', 'n'],
        EntryKey::Manufacture => seq!['m', 'a', 'n', 'u', 'f', 'a', 'c', 't', 'u', 'r', 'e'],
        EntryKey::Product => seq!['p', 'r', 'o', 'd', 'u', 'c', 't'],
    }
}

/// A copy of an optional text, with the empty text where it is absent.
fn text_or_empty_of(o: &Option<String>) -> (r: String)
    ensures
        r@ == text_or_empty(*o),
{
    match o {
        Some(s) => s.clone(),
        None => String::new(),
    }
}

/// The text `"usb"`.
fn usb_type() -> (r: String)
    ensures
        r@ == usb_type_text(),
{
    proof {
        reveal_strlit("usb");
    }
    "usb".to_owned()
}

impl PortDescriptor {
    /// Renders the descriptor as key/value entries, in a fixed key order.
    pub fn to_entries(&self) -> (r: Vec<Entry>)
        ensures
            r@.map_values(|e: Entry| e@) == entries_of(*self),
    {
        let mut r: Vec<Entry> = Vec::new();
        r.push(Entry { key: EntryKey::Name, value: FieldValue::Text(self.name.clone()) });
        match &self.kind {
            PortKind::Usb(u) => {
                r.push(Entry { key: EntryKey::Type, value: FieldValue::Text(usb_type()) });
                r.push(Entry { key: EntryKey::Vid, value: FieldValue::Number(u.vid) });
                r.push(Entry { key: EntryKey::Pid, value: FieldValue::Number(u.pid) });
                r.push(
                    Entry { key: EntryKey::Sn, value: FieldValue::Text(text_or_empty_of(&u.serial_number)) },
                );
                r.push(
                    Entry {
                        key: EntryKey::Manufacture,
                        value: FieldValue::Text(text_or_empty_of(&u.manufacturer)),
                    },
                );
                r.push(
                    Entry { key: EntryKey::Product, value: FieldValue::Text(text_or_empty_of(&u.product)) },
                );
            },
            PortKind::Other => {},
        }
        assert(r@.map_values(|e: Entry| e@) =~= entries_of(*self));
        r
    }
}

/// A rendered descriptor always holds its name first; where it holds a type,
/// that type is `"usb"`, and the vendor and product ids stand beside it.
pub proof fn lemma_entries_well_formed(d: PortDescriptor)
    ensures
        entries_of(d).len() > 0,
        entries_of(d)[0] == (EntryKey::Name, FieldView::Text(d.name@)),
        forall|i: int|
            0 <= i < entries_of(d).len() && (#[trigger] entries_of(d)[i]).0 == EntryKey::Type
                ==> entries_of(d)[i].1 == FieldView::Text(usb_type_text())
                && has_key(entries_of(d), EntryKey::Vid) && has_key(entries_of(d), EntryKey::Pid),
{
    let es = entries_of(d);
    match d.kind {
        PortKind::Usb(u) => {
            assert(es[2].0 == EntryKey::Vid);
            assert(es[3].0 == EntryKey::Pid);
        },
        PortKind::Other => {},
    }
}

} // verus!
