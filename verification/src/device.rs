//! A device as the bridge lists it: a serial and free-form attributes.

use vstd::prelude::*;
use vstd::string::*;

verus! {

/// One attribute of a device, such as `model` with its value.
#[derive(Debug, PartialEq, Eq)]
struct Attribute {
    name: String,
    value: String,
}

/// A snapshot of one device: the serial that identifies it and a mapping
/// from attribute names to values. A snapshot is never patched; a new
/// listing replaces it.
#[derive(Debug, PartialEq, Eq)]
pub struct Device {
    serial: String,
    /// In the order in which they were set; a later entry shadows an
    /// earlier one of the same name.
    attributes: Vec<Attribute>,
}

/// What a device is to the contracts of this crate.
pub struct DeviceView {
    pub serial: Seq<char>,
    pub info: Map<Seq<char>, Seq<char>>,
}

/// The mapping that a list of attributes stands for.
spec fn info_of(attributes: Seq<Attribute>) -> Map<Seq<char>, Seq<char>>
    decreases attributes.len(),
{
    if attributes.len() == 0 {
        Map::empty()
    } else {
        info_of(attributes.drop_last()).insert(attributes.last().name@, attributes.last().value@)
    }
}

/// An attribute list agrees with each of its prefixes on a name that none
/// of the entries behind the prefix has.
proof fn lemma_info_of_prefix(attributes: Seq<Attribute>, name: Seq<char>, keep: int)
    requires
        0 <= keep <= attributes.len(),
        forall|j: int| keep <= j < attributes.len() ==> attributes[j].name@ != name,
    ensures
        info_of(attributes).contains_key(name) == info_of(attributes.take(keep)).contains_key(
            name,
        ),
        info_of(attributes).contains_key(name) ==> info_of(attributes)[name] == info_of(
            attributes.take(keep),
        )[name],
    decreases attributes.len() - keep,
{
    if keep == attributes.len() {
        assert(attributes.take(keep) =~= attributes);
    } else {
        let shorter = attributes.drop_last();
        lemma_info_of_prefix(shorter, name, keep);
        assert(shorter.take(keep) =~= attributes.take(keep));
    }
}

impl View for Device {
    type V = DeviceView;

    closed spec fn view(&self) -> DeviceView {
        DeviceView { serial: self.serial@, info: info_of(self.attributes@) }
    }
}

impl Device {
    /// A device with the given serial and no attributes.
    pub fn new(serial: String) -> (device: Device)
        ensures
            device@.serial == serial@,
            device@.info == Map::<Seq<char>, Seq<char>>::empty(),
    {
        Device { serial, attributes: Vec::new() }
    }

    /// The serial that identifies the device.
    pub fn serial(&self) -> (serial: &String)
        ensures
            serial@ == self@.serial,
    {
        &self.serial
    }

    /// Sets the value of an attribute, in place of any value it had.
    pub fn set_attribute(&mut self, name: String, value: String)
        ensures
            final(self)@.serial == old(self)@.serial,
            final(self)@.info == old(self)@.info.insert(name@, value@),
    {
        self.attributes.push(Attribute { name, value });
        assert(self.attributes@.drop_last() =~= old(self).attributes@);
    }

    /// The value of an attribute, or `None` if the device has none of that
    /// name.
    pub fn attribute(&self, name: &str) -> (value: Option<&String>)
        ensures
            match value {
                Some(text) => self@.info.contains_key(name@) && self@.info[name@] == text@,
                None => !self@.info.contains_key(name@),
            },
    {
        let wanted = String::from_str(name);
        let mut rest: usize = self.attributes.len();
        while rest > 0
            invariant
                wanted@ == name@,
                rest <= self.attributes.len(),
                forall|j: int|
                    rest <= j < self.attributes.len() ==> self.attributes@[j].name@ != name@,
            decreases rest,
        {
            rest = rest - 1;
            if self.attributes[rest].name == wanted {
                proof {
                    let upto = self.attributes@.take(rest + 1);
                    lemma_info_of_prefix(self.attributes@, name@, rest + 1);
                    assert(upto.last() == self.attributes@[rest as int]);
                }
                return Some(&self.attributes[rest].value);
            }
        }
        proof {
            lemma_info_of_prefix(self.attributes@, name@, 0);
            assert(self.attributes@.take(0).len() == 0);
        }
        None
    }
}

impl Clone for Device {
    /// A copy that stands for the same device.
    fn clone(&self) -> (copy: Device)
        ensures
            copy@ == self@,
    {
        let mut attributes: Vec<Attribute> = Vec::new();
        let mut i: usize = 0;
        while i < self.attributes.len()
            invariant
                i <= self.attributes.len(),
                attributes@ == self.attributes@.take(i as int),
            decreases self.attributes.len() - i,
        {
            let entry = &self.attributes[i];
            attributes.push(Attribute { name: entry.name.clone(), value: entry.value.clone() });
            i = i + 1;
            assert(attributes@ =~= self.attributes@.take(i as int));
        }
        assert(attributes@ =~= self.attributes@);
        Device { serial: self.serial.clone(), attributes }
    }
}

} // verus!
