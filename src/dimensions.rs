//! The dimension tables that the server loads once at startup: each maps a
//! name (compared exactly) to the UUID of its row, held as its 128-bit value.

use vstd::prelude::*;

use crate::rows::{str_equal, unknown_name};

verus! {

/// The map that inserting `rows` in order into an empty map gives; a later row
/// replaces an earlier one of the same name.
pub open spec fn rows_map(rows: Seq<(Seq<char>, u128)>) -> Map<Seq<char>, u128>
    decreases rows.len(),
{
    if rows.len() == 0 {
        Map::empty()
    } else {
        rows_map(rows.drop_last()).insert(rows.last().0, rows.last().1)
    }
}

pub open spec fn row_views(rows: Seq<(String, u128)>) -> Seq<(Seq<char>, u128)> {
    rows.map_values(|r: (String, u128)| (r.0@, r.1))
}

/// A name-to-UUID table with distinct names.
pub struct NameTable {
    entries: Vec<(String, u128)>,
    contents: Ghost<Map<Seq<char>, u128>>,
}

impl View for NameTable {
    type V = Map<Seq<char>, u128>;

    closed spec fn view(&self) -> Map<Seq<char>, u128> {
        self.contents@
    }
}

impl NameTable {
    pub closed spec fn wf(&self) -> bool {
        &&& forall|i: int, j: int|
            0 <= i < j < self.entries@.len() ==> self.entries@[i].0@ != self.entries@[j].0@
        &&& forall|i: int|
            0 <= i < self.entries@.len() ==> self.contents@.contains_key(self.entries@[i].0@)
                && self.contents@[self.entries@[i].0@] == self.entries@[i].1
        &&& forall|k: Seq<char>|
            self.contents@.contains_key(k) ==> exists|i: int|
                0 <= i < self.entries@.len() && self.entries@[i].0@ == k
    }

    /// An empty table.
    pub fn new() -> (r: NameTable)
        ensures
            r.wf(),
            r@ == Map::<Seq<char>, u128>::empty(),
    {
        NameTable { entries: Vec::new(), contents: Ghost(Map::empty()) }
    }

    /// Where `name` stands in the table, if it does.
    fn position(&self, name: &str) -> (r: Option<usize>)
        requires
            self.wf(),
        ensures
            match r {
                Some(i) => i < self.entries@.len() && self.entries@[i as int].0@ == name@,
                None => !self@.contains_key(name@),
            },
    {
        let mut i: usize = 0;
        while i < self.entries.len()
            invariant
                self.wf(),
                i <= self.entries@.len(),
                forall|j: int| 0 <= j < i ==> self.entries@[j].0@ != name@,
            decreases self.entries@.len() - i,
        {
            if str_equal(self.entries[i].0.as_str(), name) {
                return Some(i);
            }
            i = i + 1;
        }
        None
    }

    /// The UUID of `name`, if the table holds it.
    pub fn get(&self, name: &str) -> (r: Option<u128>)
        requires
            self.wf(),
        ensures
            r == (if self@.contains_key(name@) {
                Some(self@[name@])
            } else {
                None::<u128>
            }),
    {
        match self.position(name) {
            Some(i) => Some(self.entries[i].1),
            None => None,
        }
    }

    /// Set the UUID of `name`, replacing any it had.
    pub fn insert(&mut self, name: String, id: u128)
        requires
            old(self).wf(),
        ensures
            final(self).wf(),
            final(self)@ == old(self)@.insert(name@, id),
    {
        let ghost key = name@;
        match self.position(name.as_str()) {
            Some(i) => {
                self.entries.set(i, (name, id));
                self.contents = Ghost(self.contents@.insert(key, id));
                assert forall|k: Seq<char>| self.contents@.contains_key(k) implies exists|j: int|
                    0 <= j < self.entries@.len() && self.entries@[j].0@ == k by {
                    if k != key {
                        let j = choose|j: int|
                            0 <= j < old(self).entries@.len() && old(self).entries@[j].0@ == k;
                        assert(self.entries@[j].0@ == k);
                    } else {
                        assert(self.entries@[i as int].0@ == k);
                    }
                }
            },
            None => {
                self.entries.push((name, id));
                self.contents = Ghost(self.contents@.insert(key, id));
                assert forall|k: Seq<char>| self.contents@.contains_key(k) implies exists|j: int|
                    0 <= j < self.entries@.len() && self.entries@[j].0@ == k by {
                    if k != key {
                        let j = choose|j: int|
                            0 <= j < old(self).entries@.len() && old(self).entries@[j].0@ == k;
                        assert(self.entries@[j].0@ == k);
                    } else {
                        assert(self.entries@[self.entries@.len() - 1].0@ == k);
                    }
                }
            },
        }
    }

    /// The table that inserting `rows` in order gives.
    pub fn from_rows(rows: Vec<(String, u128)>) -> (r: NameTable)
        ensures
            r.wf(),
            r@ == rows_map(row_views(rows@)),
    {
        let mut table = NameTable::new();
        let mut i: usize = 0;
        while i < rows.len()
            invariant
                table.wf(),
                i <= rows@.len(),
                table@ == rows_map(row_views(rows@).take(i as int)),
            decreases rows@.len() - i,
        {
            let name = rows[i].0.clone();
            let id = rows[i].1;
            assert(row_views(rows@).take(i + 1).drop_last() =~= row_views(rows@).take(i as int));
            table.insert(name, id);
            i = i + 1;
        }
        assert(row_views(rows@).take(rows@.len() as int) =~= row_views(rows@));
        table
    }
}

/// The UUID of `name`, or of the `"unknown"` row where the table lacks `name`.
pub open spec fn id_or_unknown(m: Map<Seq<char>, u128>, name: Seq<char>) -> u128 {
    if m.contains_key(name) {
        m[name]
    } else {
        m[unknown_name()]
    }
}

/// The application's UUID; else that of an `"unknown"` application, where the
/// table has one; else none.
pub open spec fn application_id(m: Map<Seq<char>, u128>, name: Seq<char>) -> Option<u128> {
    if m.contains_key(name) {
        Some(m[name])
    } else if m.contains_key(unknown_name()) {
        Some(m[unknown_name()])
    } else {
        None
    }
}

/// The dimension tables of the server.
#[derive(Clone, Copy, Debug, PartialEq, Eq, Structural)]
pub enum DimensionTable {
    Os,
    CpuManufacturer,
    CpuArchitecture,
    Application,
}

/// Why the tables could not be taken into use.
#[derive(Clone, Copy, Debug, PartialEq, Eq, Structural)]
pub enum LoadError {
    /// The table has no row named `"unknown"` to fall back on.
    MissingUnknown(DimensionTable),
}

/// The four dimension tables, read once at startup and never changed.
pub struct UuidCache {
    pub application: NameTable,
    pub os: NameTable,
    pub cpu_manufacturer: NameTable,
    pub architecture: NameTable,
}

impl UuidCache {
    pub open spec fn wf(&self) -> bool {
        &&& self.application.wf()
        &&& self.os.wf()
        &&& self.cpu_manufacturer.wf()
        &&& self.architecture.wf()
        &&& self.os@.contains_key(unknown_name())
        &&& self.cpu_manufacturer@.contains_key(unknown_name())
        &&& self.architecture@.contains_key(unknown_name())
    }

    /// Take the rows of the four tables into use. The operating-system,
    /// manufacturer and architecture tables must each hold an `"unknown"` row,
    /// which stands for any name that they lack; the application table needs
    /// none, as reports of applications that it lacks are refused.
    pub fn load(
        os_rows: Vec<(String, u128)>,
        manufacturer_rows: Vec<(String, u128)>,
        architecture_rows: Vec<(String, u128)>,
        application_rows: Vec<(String, u128)>,
    ) -> (r: Result<UuidCache, LoadError>)
        ensures
            match r {
                Ok(c) => {
                    &&& c.wf()
                    &&& c.os@ == rows_map(row_views(os_rows@))
                    &&& c.cpu_manufacturer@ == rows_map(row_views(manufacturer_rows@))
                    &&& c.architecture@ == rows_map(row_views(architecture_rows@))
                    &&& c.application@ == rows_map(row_views(application_rows@))
                },
                Err(LoadError::MissingUnknown(DimensionTable::Os)) => !rows_map(
                    row_views(os_rows@),
                ).contains_key(unknown_name()),
                Err(LoadError::MissingUnknown(DimensionTable::CpuManufacturer)) => {
                    &&& rows_map(row_views(os_rows@)).contains_key(unknown_name())
                    &&& !rows_map(row_views(manufacturer_rows@)).contains_key(unknown_name())
                },
                Err(LoadError::MissingUnknown(DimensionTable::CpuArchitecture)) => {
                    &&& rows_map(row_views(os_rows@)).contains_key(unknown_name())
                    &&& rows_map(row_views(manufacturer_rows@)).contains_key(unknown_name())
                    &&& !rows_map(row_views(architecture_rows@)).contains_key(unknown_name())
                },
                Err(LoadError::MissingUnknown(DimensionTable::Application)) => false,
            },
    {
        let os = NameTable::from_rows(os_rows);
        let cpu_manufacturer = NameTable::from_rows(manufacturer_rows);
        let architecture = NameTable::from_rows(architecture_rows);
        let application = NameTable::from_rows(application_rows);
        if os.get("unknown").is_none() {
            return Err(LoadError::MissingUnknown(DimensionTable::Os));
        }
        if cpu_manufacturer.get("unknown").is_none() {
            return Err(LoadError::MissingUnknown(DimensionTable::CpuManufacturer));
        }
        if architecture.get("unknown").is_none() {
            return Err(LoadError::MissingUnknown(DimensionTable::CpuArchitecture));
        }
        Ok(UuidCache { application, os, cpu_manufacturer, architecture })
    }

    /// The operating system's UUID, or that of the `"unknown"` operating system.
    pub fn get_os(&self, os: &str) -> (r: u128)
        requires
            self.wf(),
        ensures
            r == id_or_unknown(self.os@, os@),
    {
        match self.os.get(os) {
            Some(id) => id,
            None => self.os.get("unknown").unwrap(),
        }
    }

    /// The manufacturer's UUID, or that of the `"unknown"` manufacturer.
    pub fn get_cpu_manufacturer(&self, manufacturer: &str) -> (r: u128)
        requires
            self.wf(),
        ensures
            r == id_or_unknown(self.cpu_manufacturer@, manufacturer@),
    {
        match self.cpu_manufacturer.get(manufacturer) {
            Some(id) => id,
            None => self.cpu_manufacturer.get("unknown").unwrap(),
        }
    }

    /// The architecture's UUID, or that of the `"unknown"` architecture.
    pub fn get_architecture(&self, arch: &str) -> (r: u128)
        requires
            self.wf(),
        ensures
            r == id_or_unknown(self.architecture@, arch@),
    {
        match self.architecture.get(arch) {
            Some(id) => id,
            None => self.architecture.get("unknown").unwrap(),
        }
    }

    /// The application's UUID; else that of an `"unknown"` application, where
    /// the table has one; else `None`: reports of such applications are refused.
    pub fn get_application(&self, app: &str) -> (r: Option<u128>)
        requires
            self.wf(),
        ensures
            r == application_id(self.application@, app@),
    {
        match self.application.get(app) {
            Some(id) => Some(id),
            None => self.application.get("unknown"),
        }
    }
}

} // verus!
