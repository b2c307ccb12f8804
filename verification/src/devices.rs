//! The devices that are attached, and their names.
use vstd::prelude::*;

use crate::text::chars_of;

verus! {

/// How long resolving one device's name may take, in milliseconds.
pub const NAME_TIMEOUT_MS: u64 = 2000;

/// How a device is attached.
#[derive(Debug, Clone, Copy, PartialEq, Eq, Structural)]
pub enum ConnKind {
    Usb,
    Network,
    Other,
}

/// A device that is attached.
#[derive(Debug)]
pub struct Attached {
    pub udid: String,
    pub connection: ConnKind,
}

/// A device as the picker lists it.
#[derive(Debug)]
pub struct DeviceInfo {
    pub udid: String,
    pub name: String,
    pub connection: ConnKind,
}

/// What a [`DeviceInfo`] says.
pub struct DeviceModel {
    pub udid: Seq<char>,
    pub name: Seq<char>,
    pub connection: ConnKind,
}

impl View for DeviceInfo {
    type V = DeviceModel;

    open spec fn view(&self) -> DeviceModel {
        DeviceModel { udid: self.udid@, name: self.name@, connection: self.connection }
    }
}

/// The names of devices that have been asked for, by UDID, so that a refresh does
/// not ask again.
#[derive(Debug)]
pub struct NameCache {
    entries: Vec<(String, String)>,
}

spec fn named(entries: Seq<(String, String)>) -> Map<Seq<char>, Seq<char>>
    decreases entries.len(),
{
    if entries.len() == 0 {
        Map::empty()
    } else {
        named(entries.drop_last()).insert(entries.last().0@, entries.last().1@)
    }
}

spec fn distinct(entries: Seq<(String, String)>) -> bool {
    forall|i: int, j: int|
        0 <= i < j < entries.len() ==> (#[trigger] entries[i]).0@ != (#[trigger] entries[j]).0@
}

proof fn lemma_named(entries: Seq<(String, String)>, udid: Seq<char>)
    requires
        distinct(entries),
    ensures
        named(entries).dom().contains(udid) <==> exists|i: int|
            0 <= i < entries.len() && (#[trigger] entries[i]).0@ == udid,
        forall|i: int|
            0 <= i < entries.len() && (#[trigger] entries[i]).0@ == udid ==> named(entries)[udid]
                == entries[i].1@,
    decreases entries.len(),
{
    if entries.len() > 0 {
        let shorter = entries.drop_last();
        assert(distinct(shorter)) by {
            assert forall|i: int, j: int| 0 <= i < j < shorter.len() implies (
            #[trigger] shorter[i]).0@ != (#[trigger] shorter[j]).0@ by {
                assert(shorter[i] == entries[i] && shorter[j] == entries[j]);
            }
        }
        lemma_named(shorter, udid);
        assert forall|i: int| 0 <= i < shorter.len() implies shorter[i] == #[trigger] entries[i] by {
        }
        if named(shorter).dom().contains(udid) {
            let i = choose|i: int| 0 <= i < shorter.len() && (#[trigger] shorter[i]).0@ == udid;
            assert(entries[i].0@ == udid);
        }
        assert(entries[entries.len() - 1] == entries.last());
    }
}

impl View for NameCache {
    type V = Map<Seq<char>, Seq<char>>;

    closed spec fn view(&self) -> Map<Seq<char>, Seq<char>> {
        named(self.entries@)
    }
}

impl NameCache {
    #[verifier::type_invariant]
    spec fn no_udid_twice(self) -> bool {
        distinct(self.entries@)
    }

    /// No name is known.
    pub fn new() -> (r: NameCache)
        ensures
            r@ == Map::<Seq<char>, Seq<char>>::empty(),
    {
        NameCache { entries: Vec::new() }
    }

    /// The name of a device, if it is known.
    pub fn get(&self, udid: &String) -> (r: Option<&String>)
        ensures
            r is Some == self@.dom().contains(udid@),
            r matches Some(name) ==> name@ == self@[udid@],
    {
        proof {
            use_type_invariant(self);
            lemma_named(self.entries@, udid@);
        }
        let mut i: usize = 0;
        while i < self.entries.len()
            invariant
                i <= self.entries@.len(),
                forall|j: int| 0 <= j < i ==> (#[trigger] self.entries@[j]).0@ != udid@,
                forall|j: int|
                    0 <= j < self.entries@.len() && (#[trigger] self.entries@[j]).0@ == udid@
                        ==> self@[udid@] == self.entries@[j].1@,
                self@.dom().contains(udid@) <==> exists|j: int|
                    0 <= j < self.entries@.len() && (#[trigger] self.entries@[j]).0@ == udid@,
            decreases self.entries@.len() - i,
        {
            if self.entries[i].0 == *udid {
                assert(self.entries@[i as int].0@ == udid@);
                return Some(&self.entries[i].1);
            }
            i += 1;
        }
        None
    }

    /// Take note of the outcome of asking a device for its name. One that could not
    /// be named goes by its UDID from then on; one that is known keeps its name.
    pub fn learn(&mut self, udid: &String, answer: Option<String>)
        ensures
            final(self)@ == learned(old(self)@, udid@, chars_of(answer)),
    {
        if self.get(udid).is_some() {
            return;
        }
        let name = match answer {
            Some(name) => name,
            None => udid.clone(),
        };
        proof {
            use_type_invariant(&*self);
            lemma_named(self.entries@, udid@);
        }
        let mut entries: Vec<(String, String)> = Vec::new();
        std::mem::swap(&mut entries, &mut self.entries);
        let ghost before = entries@;
        entries.push((udid.clone(), name));
        assert(entries@.drop_last() =~= before);
        assert(distinct(entries@)) by {
            assert forall|i: int, j: int| 0 <= i < j < entries@.len() implies (
            #[trigger] entries@[i]).0@ != (#[trigger] entries@[j]).0@ by {
                assert(entries@[i] == before[i]);
            }
        }
        self.entries = entries;
    }
}

/// The names that are known once a device has been asked for its own.
pub open spec fn learned(
    names: Map<Seq<char>, Seq<char>>,
    udid: Seq<char>,
    answer: Option<Seq<char>>,
) -> Map<Seq<char>, Seq<char>> {
    if names.dom().contains(udid) {
        names
    } else {
        names.insert(
            udid,
            match answer {
                Some(name) => name,
                None => udid,
            },
        )
    }
}

/// The picker's entry for a device whose name is known.
pub open spec fn listed(names: Map<Seq<char>, Seq<char>>, dev: Attached) -> DeviceModel {
    DeviceModel { udid: dev.udid@, name: names[dev.udid@], connection: dev.connection }
}

/// List the attached devices for the picker, in order. `Err` gives the first whose
/// name is still to be asked for.
pub fn list_devices(names: &NameCache, devs: &Vec<Attached>) -> (r: Result<Vec<DeviceInfo>, usize>)
    ensures
        match r {
            Ok(list) => {
                &&& forall|i: int|
                    0 <= i < devs@.len() ==> names@.dom().contains((#[trigger] devs@[i]).udid@)
                &&& list@.map_values(|d: DeviceInfo| d@) == devs@.map_values(
                    |d: Attached| listed(names@, d),
                )
            },
            Err(at) => {
                &&& at < devs@.len()
                &&& !names@.dom().contains(devs@[at as int].udid@)
                &&& forall|i: int|
                    0 <= i < at ==> names@.dom().contains((#[trigger] devs@[i]).udid@)
            },
        },
{
    let mut list: Vec<DeviceInfo> = Vec::new();
    let mut i: usize = 0;
    while i < devs.len()
        invariant
            i <= devs@.len(),
            list@.len() == i,
            forall|j: int| 0 <= j < i ==> names@.dom().contains((#[trigger] devs@[j]).udid@),
            forall|j: int| 0 <= j < i ==> (#[trigger] list@[j])@ == listed(names@, devs@[j]),
        decreases devs@.len() - i,
    {
        let dev = &devs[i];
        match names.get(&dev.udid) {
            Some(name) => {
                list.push(
                    DeviceInfo {
                        udid: dev.udid.clone(),
                        name: name.clone(),
                        connection: dev.connection,
                    },
                );
            },
            None => {
                return Err(i);
            },
        }
        i += 1;
    }
    assert(list@.map_values(|d: DeviceInfo| d@) =~= devs@.map_values(
        |d: Attached| listed(names@, d),
    ));
    Ok(list)
}

/// The names that are known once each of these devices has been asked, in order.
pub open spec fn learned_all(
    names: Map<Seq<char>, Seq<char>>,
    asked: Seq<(Seq<char>, Option<Seq<char>>)>,
) -> Map<Seq<char>, Seq<char>>
    decreases asked.len(),
{
    if asked.len() == 0 {
        names
    } else {
        let last = asked.last();
        learned(learned_all(names, asked.drop_last()), last.0, last.1)
    }
}

/// A device is asked for its name once: whatever is asked afterwards, the name that
/// was found, or the UDID in its place, stays.
pub proof fn law_a_name_is_asked_for_once(
    names: Map<Seq<char>, Seq<char>>,
    udid: Seq<char>,
    answer: Option<Seq<char>>,
    later: Seq<(Seq<char>, Option<Seq<char>>)>,
)
    requires
        !names.dom().contains(udid),
    ensures
        ({
            let all = learned_all(learned(names, udid, answer), later);
            &&& all.dom().contains(udid)
            &&& all[udid] == match answer {
                Some(name) => name,
                None => udid,
            }
        }),
    decreases later.len(),
{
    if later.len() > 0 {
        law_a_name_is_asked_for_once(names, udid, answer, later.drop_last());
    }
}

/// Asking one device says nothing of another: names that are known stay, and no
/// name appears but that of the device that was asked.
pub proof fn law_other_names_stay(
    names: Map<Seq<char>, Seq<char>>,
    udid: Seq<char>,
    answer: Option<Seq<char>>,
    other: Seq<char>,
)
    ensures
        ({
            let after = learned(names, udid, answer);
            &&& after.dom().contains(other) <==> names.dom().contains(other) || other == udid
            &&& names.dom().contains(other) ==> after[other] == names[other]
            &&& !names.dom().contains(udid) && answer is Some ==> after[udid] == answer->0
            &&& !names.dom().contains(udid) && answer is None ==> after[udid] == udid
        }),
{
}

/// The picker shows each device under its own UDID, the name that is known for it,
/// and the way in which it is attached.
pub proof fn law_devices_are_listed_as_they_are(names: Map<Seq<char>, Seq<char>>, dev: Attached)
    ensures
        listed(names, dev).udid == dev.udid@,
        listed(names, dev).name == names[dev.udid@],
        listed(names, dev).connection == dev.connection,
{
}

/// An entry of the picker says what it holds.
pub proof fn law_an_entry_says_what_it_holds(info: DeviceInfo)
    ensures
        info@.udid == info.udid@,
        info@.name == info.name@,
        info@.connection == info.connection,
{
}

} // verus!
