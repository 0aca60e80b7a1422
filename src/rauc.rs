use vstd::prelude::*;
use vstd::string::StringExecFns;

use crate::device::same_exactly;
use crate::error::Error;
use crate::version::{semver_parse, Version};

verus! {

/// The views of a sequence of text pairs.
pub open spec fn pair_texts(v: Seq<(String, String)>) -> Seq<(Seq<char>, Seq<char>)> {
    v.map_values(|p: (String, String)| (p.0@, p.1@))
}

/// The value stored under `key` in a list of key/value pairs (the last one
/// when the key occurs more than once).
pub open spec fn lookup(m: Seq<(Seq<char>, Seq<char>)>, key: Seq<char>) -> Option<Seq<char>>
    decreases m.len(),
{
    if m.len() == 0 {
        None
    } else if m.last().0 == key {
        Some(m.last().1)
    } else {
        lookup(m.drop_last(), key)
    }
}

/// The raw status of a slot, as the installer reports it: slot name and
/// its key/value pairs. The installer reports the pairs as a map, so each key
/// occurs once; where a key does occur more than once, its last entry wins,
/// and where a slot name occurs more than once, its last entry wins.
pub type SlotStatus = (String, Vec<(String, String)>);

/// The views of a reported slot status list.
pub open spec fn status_texts(s: Seq<SlotStatus>) -> Seq<(Seq<char>, Seq<(Seq<char>, Seq<char>)>)> {
    s.map_values(|e: SlotStatus| (e.0@, pair_texts(e.1@)))
}

/// The key/value pairs reported for the slot named `key` (the last entry when
/// the name occurs more than once).
pub open spec fn slot_pairs(
    s: Seq<(Seq<char>, Seq<(Seq<char>, Seq<char>)>)>,
    key: Seq<char>,
) -> Option<Seq<(Seq<char>, Seq<char>)>>
    decreases s.len(),
{
    if s.len() == 0 {
        None
    } else if s.last().0 == key {
        Some(s.last().1)
    } else {
        slot_pairs(s.drop_last(), key)
    }
}

/// Whether a slot with this raw status was booted from: its `state` is
/// `booted` or `active`.
pub open spec fn booted_in(pairs: Option<Seq<(Seq<char>, Seq<char>)>>) -> bool {
    pairs matches Some(m) && (lookup(m, "state"@) == Some("booted"@) || lookup(m, "state"@) == Some(
        "active"@,
    ))
}

/// The bundle version text a slot with this raw status reports, if any.
pub open spec fn version_in(pairs: Option<Seq<(Seq<char>, Seq<char>)>>) -> Option<Seq<char>> {
    match pairs {
        Some(m) => lookup(m, "bundle.version"@),
        None => None,
    }
}

/// Whether every slot's reported bundle version, where there is one, parses.
pub open spec fn versions_valid(s: Seq<(Seq<char>, Seq<(Seq<char>, Seq<char>)>)>) -> bool {
    forall|k: int|
        0 <= k < s.len() ==> (version_in(#[trigger] slot_pairs(s, s[k].0)) matches Some(v)
            ==> semver_parse(v) is Some)
}

/// The version text of the system: that of the last slot named `primary`
/// that reports a bundle version.
pub open spec fn primary_version(
    s: Seq<(Seq<char>, Seq<(Seq<char>, Seq<char>)>)>,
    all: Seq<(Seq<char>, Seq<(Seq<char>, Seq<char>)>)>,
    primary: Seq<char>,
) -> Option<Seq<char>>
    decreases s.len(),
{
    if s.len() == 0 {
        None
    } else if s.last().0 == primary && version_in(slot_pairs(all, primary)) is Some {
        version_in(slot_pairs(all, primary))
    } else {
        primary_version(s.drop_last(), all, primary)
    }
}

fn copy_pairs(v: &Vec<(String, String)>) -> (r: Vec<(String, String)>)
    ensures
        pair_texts(r@) == pair_texts(v@),
{
    let mut r: Vec<(String, String)> = Vec::new();
    let mut i: usize = 0;
    while i < v.len()
        invariant
            i <= v.len(),
            pair_texts(r@) == pair_texts(v@.take(i as int)),
        decreases v.len() - i,
    {
        let ghost before = r@;
        r.push((v[i].0.clone(), v[i].1.clone()));
        assert(pair_texts(r@) =~= pair_texts(before).push((v@[i as int].0@, v@[i as int].1@)));
        assert(pair_texts(v@.take(i + 1)) =~= pair_texts(v@.take(i as int)).push(
            (v@[i as int].0@, v@[i as int].1@),
        ));
        i = i + 1;
    }
    assert(v@.take(v.len() as int) =~= v@);
    r
}

/// The value stored under `key`, if any.
fn lookup_value(m: &Vec<(String, String)>, key: &str) -> (r: Option<String>)
    ensures
        r matches Some(v) ==> lookup(pair_texts(m@), key@) == Some(v@),
        r is None ==> lookup(pair_texts(m@), key@) is None,
{
    let mut found: Option<String> = None;
    let mut i: usize = 0;
    while i < m.len()
        invariant
            i <= m.len(),
            found matches Some(v) ==> lookup(pair_texts(m@.take(i as int)), key@) == Some(v@),
            found is None ==> lookup(pair_texts(m@.take(i as int)), key@) is None,
        decreases m.len() - i,
    {
        assert(pair_texts(m@.take(i + 1)).drop_last() =~= pair_texts(m@.take(i as int)));
        assert(pair_texts(m@.take(i + 1)).last() == (m@[i as int].0@, m@[i as int].1@));
        if same_exactly(m[i].0.as_str(), key) {
            found = Some(m[i].1.clone());
        }
        i = i + 1;
    }
    assert(m@.take(m.len() as int) =~= m@);
    found
}

/// Get the raw status of the slot named `key`: the pairs of its last entry.
pub fn unwrap_slot_status(key: &str, status: &Vec<SlotStatus>) -> (r: Option<Vec<(String, String)>>)
    ensures
        r matches Some(v) ==> slot_pairs(status_texts(status@), key@) == Some(pair_texts(v@)),
        r is None ==> slot_pairs(status_texts(status@), key@) is None,
{
    let mut found: Option<Vec<(String, String)>> = None;
    let mut i: usize = 0;
    while i < status.len()
        invariant
            i <= status.len(),
            found matches Some(v) ==> slot_pairs(status_texts(status@.take(i as int)), key@) == Some(
                pair_texts(v@),
            ),
            found is None ==> slot_pairs(status_texts(status@.take(i as int)), key@) is None,
        decreases status.len() - i,
    {
        assert(status_texts(status@.take(i + 1)).drop_last() =~= status_texts(status@.take(i as int)));
        assert(status_texts(status@.take(i + 1)).last() == (status@[i as int].0@, pair_texts(
            status@[i as int].1@,
        )));
        if same_exactly(status[i].0.as_str(), key) {
            found = Some(copy_pairs(&status[i].1));
        }
        i = i + 1;
    }
    assert(status@.take(status.len() as int) =~= status@);
    found
}

/// Get the names of all slots from the slot status, in order.
pub fn get_slot_names(status: &Vec<SlotStatus>) -> (r: Vec<String>)
    ensures
        r@.len() == status@.len(),
        forall|k: int| 0 <= k < r@.len() ==> #[trigger] r@[k]@ == status@[k].0@,
{
    let mut names: Vec<String> = Vec::new();
    let mut i: usize = 0;
    while i < status.len()
        invariant
            i <= status.len(),
            names@.len() == i,
            forall|k: int| 0 <= k < i ==> #[trigger] names@[k]@ == status@[k].0@,
        decreases status.len() - i,
    {
        names.push(status[i].0.clone());
        i = i + 1;
    }
    names
}

/// Information on a slot of the system.
#[derive(Clone, Debug)]
pub struct Slot {
    /// whether this slot is the primary
    pub primary: bool,
    /// whether this slot was booted from
    pub booted: bool,
    /// the name of the slot
    pub name: String,
    /// the version of the slot, if any
    pub version: Option<Version>,
    /// the raw slot status
    pub status: Option<Vec<(String, String)>>,
}

/// The text of an optional version: empty when there is none.
pub open spec fn optional_version_text(v: Option<Version>) -> Seq<char> {
    match v {
        Some(v) => v.text@,
        None => Seq::empty(),
    }
}

impl Slot {
    /// Create a new slot.
    pub fn new(
        primary: bool,
        booted: bool,
        name: &str,
        version: Option<Version>,
        status: Option<Vec<(String, String)>>,
    ) -> (r: Slot)
        ensures
            r.primary == primary,
            r.booted == booted,
            r.name@ == name@,
            r.version == version,
            r.status == status,
    {
        Slot { primary, booted, name: String::from_str(name), version, status }
    }

    /// Return the version as text, empty when there is none.
    pub fn version_string(&self) -> (r: String)
        ensures
            r@ == optional_version_text(self.version),
    {
        match &self.version {
            Some(v) => v.text.clone(),
            None => String::new(),
        }
    }

    /// Return the raw slot status.
    pub fn status(&self) -> (r: Option<&Vec<(String, String)>>)
        ensures
            r matches Some(s) ==> self.status == Some(*s),
            r is None ==> self.status is None,
    {
        match &self.status {
            Some(s) => Some(s),
            None => None,
        }
    }
}

/// Information on the installer and the system it runs on.
#[derive(Clone, Debug)]
pub struct RaucInfo {
    /// the installer's operational state
    pub operation: Option<String>,
    /// the compatible the system supports
    pub compatible: String,
    /// the variant the system supports
    pub variant: String,
    /// the slot the system booted from
    pub boot_slot: String,
    /// the version of the primary slot, if any
    pub version: Option<Version>,
    /// the slots the installer tracks
    pub slots: Vec<Slot>,
}

impl RaucInfo {
    /// Put together the information the installer reported: its operation,
    /// the system's compatible, variant and boot slot, the name of the
    /// primary slot, and the raw status of each slot.
    ///
    /// Each slot's status is that of the last entry with its name; it was
    /// booted if its `state` is `booted` or `active`; its version is its
    /// `bundle.version`, which must parse. The system version is that of the
    /// primary slot.
    pub fn new(
        operation: String,
        compatible: String,
        variant: String,
        boot_slot: String,
        primary: &str,
        slot_status: &Vec<SlotStatus>,
    ) -> (r: Result<RaucInfo, Error>)
        ensures
            r is Ok <==> versions_valid(status_texts(slot_status@)),
            r is Err ==> r matches Err(Error::SlotVersion(_, _, _)),
            r matches Err(Error::SlotVersion(v, n, _)) ==> {
                let s = status_texts(slot_status@);
                exists|k: int|
                    0 <= k < s.len() && n@ == #[trigger] s[k].0 && version_in(slot_pairs(s, s[k].0))
                        == Some(v@) && semver_parse(v@) is None
            },
            r matches Ok(info) ==> {
                let s = status_texts(slot_status@);
                &&& info.operation matches Some(o) && o@ == operation@
                &&& info.compatible@ == compatible@
                &&& info.variant@ == variant@
                &&& info.boot_slot@ == boot_slot@
                &&& info.slots@.len() == s.len()
                &&& forall|k: int| 0 <= k < s.len() ==> {
                    let slot = #[trigger] info.slots@[k];
                    let pairs = slot_pairs(s, s[k].0);
                    &&& slot.name@ == s[k].0
                    &&& slot.primary == (s[k].0 == primary@)
                    &&& slot.booted == booted_in(pairs)
                    &&& (slot.status matches Some(m) ==> pairs == Some(pair_texts(m@)))
                    &&& (slot.status is None ==> pairs is None)
                    &&& (slot.version matches Some(v) ==> v.wf() && version_in(pairs) == Some(v.source@))
                    &&& (slot.version is None ==> version_in(pairs) is None)
                }
                &&& (info.version matches Some(v) ==> v.wf() && primary_version(s, s, primary@) == Some(v.source@))
                &&& (info.version is None ==> primary_version(s, s, primary@) is None)
            },
    {
        let ghost s = status_texts(slot_status@);
        let names = get_slot_names(slot_status);
        let mut slots: Vec<Slot> = Vec::new();
        let mut system_version: Option<Version> = None;
        let mut i: usize = 0;
        while i < names.len()
            invariant
                s == status_texts(slot_status@),
                names@.len() == slot_status@.len(),
                forall|k: int| 0 <= k < names@.len() ==> #[trigger] names@[k]@ == slot_status@[k].0@,
                i <= names.len(),
                slots@.len() == i,
                forall|k: int| 0 <= k < i ==> (version_in(#[trigger] slot_pairs(s, s[k].0)) matches Some(v)
                    ==> semver_parse(v) is Some),
                forall|k: int| 0 <= k < i ==> {
                    let slot = #[trigger] slots@[k];
                    let pairs = slot_pairs(s, s[k].0);
                    &&& slot.name@ == s[k].0
                    &&& slot.primary == (s[k].0 == primary@)
                    &&& slot.booted == booted_in(pairs)
                    &&& (slot.status matches Some(m) ==> pairs == Some(pair_texts(m@)))
                    &&& (slot.status is None ==> pairs is None)
                    &&& (slot.version matches Some(v) ==> v.wf() && version_in(pairs) == Some(v.source@))
                    &&& (slot.version is None ==> version_in(pairs) is None)
                },
                system_version matches Some(v) ==> v.wf() && primary_version(s.take(i as int), s, primary@) == Some(v.source@),
                system_version is None ==> primary_version(s.take(i as int), s, primary@) is None,
            decreases names.len() - i,
        {
            let name = &names[i];
            assert(s[i as int].0 == name@);
            let raw = unwrap_slot_status(name.as_str(), slot_status);
            let (booted, version_text) = match &raw {
                Some(m) => {
                    let state = lookup_value(m, "state");
                    let booted = match &state {
                        Some(st) => same_exactly(st.as_str(), "booted") || same_exactly(st.as_str(), "active"),
                        None => false,
                    };
                    (booted, lookup_value(m, "bundle.version"))
                },
                None => (false, None),
            };
            let version = match &version_text {
                Some(t) => match Version::parse(t.as_str()) {
                    Ok(v) => Some(v),
                    Err(why) => {
                        proof {
                            assert(!versions_valid(s));
                            assert(s[i as int].0 == name@);
                        }
                        return Err(Error::SlotVersion(t.clone(), name.clone(), why));
                    },
                },
                None => None,
            };
            let is_primary = same_exactly(name.as_str(), primary);
            assert(s.take(i + 1).drop_last() =~= s.take(i as int));
            if is_primary {
                match &version {
                    Some(v) => {
                        system_version = Some(v.duplicate());
                    },
                    None => {},
                }
            }
            slots.push(Slot::new(is_primary, booted, name.as_str(), version, raw));
            i = i + 1;
        }
        assert(s.take(names.len() as int) =~= s);
        Ok(
            RaucInfo {
                operation: Some(operation),
                compatible,
                variant,
                boot_slot,
                version: system_version,
                slots,
            },
        )
    }
    /// Get the installer's operational state.
    pub fn operation(&self) -> (r: Option<&str>)
        ensures
            r matches Some(o) ==> self.operation matches Some(x) && x@ == o@,
            r is None ==> self.operation is None,
    {
        match &self.operation {
            Some(o) => Some(o.as_str()),
            None => None,
        }
    }

    /// Get the compatible of the system.
    pub fn compatible(&self) -> (r: &str)
        ensures
            r@ == self.compatible@,
    {
        self.compatible.as_str()
    }

    /// Get the variant of the system.
    pub fn variant(&self) -> (r: &str)
        ensures
            r@ == self.variant@,
    {
        self.variant.as_str()
    }

    /// Get the system version, if any.
    pub fn version(&self) -> (r: Option<&Version>)
        ensures
            r matches Some(v) ==> self.version == Some(*v),
            r is None ==> self.version is None,
    {
        match &self.version {
            Some(v) => Some(v),
            None => None,
        }
    }

    /// Return the system version as text, empty when there is none.
    pub fn version_string(&self) -> (r: String)
        ensures
            r@ == optional_version_text(self.version),
    {
        match &self.version {
            Some(v) => v.text.clone(),
            None => String::new(),
        }
    }

    /// Return the text that describes the installer and the system.
    pub fn describe(&self) -> (r: String)
        ensures
            r@ == "RAUC ("@ + (match self.operation {
                Some(o) => o@,
                None => Seq::empty(),
            }) + ") for compatible \""@ + self.compatible@ + "\" (variant: \""@ + self.variant@
                + "\") on boot slot \""@ + self.boot_slot@ + "\" in version \""@
                + optional_version_text(self.version) + "\""@,
    {
        let operation = match &self.operation {
            Some(o) => o.clone(),
            None => String::new(),
        };
        String::from_str("RAUC (").concat(operation.as_str()).concat(") for compatible \"").concat(
            self.compatible.as_str(),
        ).concat("\" (variant: \"").concat(self.variant.as_str()).concat("\") on boot slot \"").concat(
            self.boot_slot.as_str(),
        ).concat("\" in version \"").concat(self.version_string().as_str()).concat("\"")
    }

    /// Get the boot slot of the system.
    pub fn boot_slot(&self) -> (r: &str)
        ensures
            r@ == self.boot_slot@,
    {
        self.boot_slot.as_str()
    }

    /// Get the slots.
    pub fn slots(&self) -> (r: &Vec<Slot>)
        ensures
            *r == self.slots,
    {
        &self.slots
    }
}

} // verus!
