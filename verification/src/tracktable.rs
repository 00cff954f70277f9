//! The declarative definition of one tracking relationship.
//!
//! A [`TrackTable`] names a source table, the columns to snapshot, and the
//! statement kind to observe. All generated object names (tracking table,
//! trigger function, trigger) are derived deterministically from its logical
//! tracking name; two definitions are considered the same registry entry
//! exactly when their derived tracking-table names coincide.

use vstd::prelude::*;

use crate::utils::is_identifier;
use crate::utils::is_start_char;
use crate::utils::is_word_char;

verus! {

/// One tracked field: a column name and the raw SQL type name that is echoed
/// verbatim into generated DDL. The type string is not interpreted; supplying
/// a valid SQL type is the caller's responsibility.
#[derive(Debug)]
pub struct Col {
    pub name: String,
    pub data_type: String,
}

/// The mathematical content of a [`Col`]: both strings as character sequences.
#[verifier::ext_equal]
pub struct ColView {
    pub name: Seq<char>,
    pub data_type: Seq<char>,
}

impl View for Col {
    type V = ColView;

    open spec fn view(&self) -> ColView {
        ColView { name: self.name@, data_type: self.data_type@ }
    }
}

impl Clone for Col {
    fn clone(&self) -> (c: Col)
        ensures
            c@ == self@,
    {
        Col { name: self.name.clone(), data_type: self.data_type.clone() }
    }
}

/// Which statement kind a track table observes. One value tracks exactly one
/// kind; tracking several kinds takes several track tables.
#[derive(Clone, Copy, Debug, PartialEq, Eq, Structural)]
pub enum On {
    Insert,
    Update,
    Delete,
}

impl On {
    /// The lower-case tag used in derived object names and in the persisted
    /// catalog's `track_op` column.
    pub open spec fn spec_label(self) -> Seq<char> {
        match self {
            On::Insert => "insert"@,
            On::Update => "update"@,
            On::Delete => "delete"@,
        }
    }

    /// The SQL keyword of the tracked statement kind.
    pub open spec fn spec_keyword(self) -> Seq<char> {
        match self {
            On::Insert => "INSERT"@,
            On::Update => "UPDATE"@,
            On::Delete => "DELETE"@,
        }
    }

    /// The inverse of [`On::spec_label`]: recognizes the three catalog tags.
    pub open spec fn spec_from_str(s: Seq<char>) -> Option<On> {
        if s == "insert"@ {
            Some(On::Insert)
        } else if s == "update"@ {
            Some(On::Update)
        } else if s == "delete"@ {
            Some(On::Delete)
        } else {
            None
        }
    }

    pub fn label(&self) -> (r: &'static str)
        ensures
            r@ == self.spec_label(),
    {
        match self {
            On::Insert => "insert",
            On::Update => "update",
            On::Delete => "delete",
        }
    }

    pub fn keyword(&self) -> (r: &'static str)
        ensures
            r@ == self.spec_keyword(),
    {
        match self {
            On::Insert => "INSERT",
            On::Update => "UPDATE",
            On::Delete => "DELETE",
        }
    }

    /// Reads a persisted `track_op` tag back into a statement kind.
    pub fn from_str(s: &str) -> (r: Option<On>)
        ensures
            r == On::spec_from_str(s@),
    {
        if crate::utils::str_eq(s, "insert") {
            Some(On::Insert)
        } else if crate::utils::str_eq(s, "update") {
            Some(On::Update)
        } else if crate::utils::str_eq(s, "delete") {
            Some(On::Delete)
        } else {
            None
        }
    }
}

/// The unit of tracking configuration: which table is observed, which columns
/// are snapshot, and whether OLD and/or NEW values are captured. `id` and the
/// two timestamps are registry bookkeeping, set when a definition is created
/// or loaded, never by the transport caller.
#[derive(Debug)]
pub struct TrackTable {
    pub id: u128,
    pub name: String,
    pub on: On,
    pub p_id: Option<Col>,
    pub table: String,
    pub track: Vec<Col>,
    pub old: bool,
    pub new: bool,
    pub created_at: i64,
    pub updated_at: i64,
}

/// The mathematical content of a [`TrackTable`], with every string a
/// character sequence. All contracts in this crate speak of these values.
#[verifier::ext_equal]
pub struct TrackTableView {
    pub id: u128,
    pub name: Seq<char>,
    pub on: On,
    pub p_id: Option<ColView>,
    pub table: Seq<char>,
    pub track: Seq<ColView>,
    pub old: bool,
    pub new: bool,
    pub created_at: i64,
    pub updated_at: i64,
}

impl View for TrackTable {
    type V = TrackTableView;

    open spec fn view(&self) -> TrackTableView {
        TrackTableView {
            id: self.id,
            name: self.name@,
            on: self.on,
            p_id: match self.p_id {
                Some(c) => Some(c@),
                None => None,
            },
            table: self.table@,
            track: self.track@.map_values(|c: Col| c@),
            old: self.old,
            new: self.new,
            created_at: self.created_at,
            updated_at: self.updated_at,
        }
    }
}

/// The derived tracking-table name: where captured rows are stored.
pub open spec fn spec_table_name(name: Seq<char>) -> Seq<char> {
    "liveo_tracktable_"@ + name
}

/// The derived trigger-function name.
pub open spec fn spec_func_name(name: Seq<char>) -> Seq<char> {
    "liveo_func_"@ + name
}

/// The derived trigger name.
pub open spec fn spec_trigger_name(name: Seq<char>) -> Seq<char> {
    "liveo_trigger_"@ + name
}

/// The longest derived-name prefix is `liveo_tracktable_` (17 characters), so
/// a tracking name of at most this length keeps every derived object name
/// within the 63-character identifier limit.
pub const MAX_NAME_LEN: usize = 46;

impl TrackTableView {
    /// A well-formed definition: every name that synthesis will interpolate
    /// into DDL text passes the identifier validator, and the tracking name is
    /// short enough that the derived object names do too.
    pub open spec fn wf(self) -> bool {
        &&& is_identifier(self.name)
        &&& self.name.len() <= MAX_NAME_LEN
        &&& is_identifier(self.table)
        &&& forall|i: int| 0 <= i < self.track.len() ==> is_identifier(#[trigger] self.track[i].name)
        &&& self.p_id matches Some(c) ==> is_identifier(c.name)
    }
}

impl TrackTable {
    #[allow(clippy::too_many_arguments)]
    pub fn new(
        id: u128,
        name: String,
        on: On,
        p_id: Option<Col>,
        table: String,
        track: Vec<Col>,
        old: bool,
        new: bool,
        created_at: i64,
        updated_at: i64,
    ) -> (t: TrackTable)
        ensures
            t == (TrackTable { id, name, on, p_id, table, track, old, new, created_at, updated_at }),
    {
        TrackTable { id, name, on, p_id, table, track, old, new, created_at, updated_at }
    }

    pub fn table_name(&self) -> (r: String)
        ensures
            r@ == spec_table_name(self@.name),
    {
        let mut s = String::from_str("liveo_tracktable_");
        s.append(self.name.as_str());
        s
    }

    pub fn func_name(&self) -> (r: String)
        ensures
            r@ == spec_func_name(self@.name),
    {
        let mut s = String::from_str("liveo_func_");
        s.append(self.name.as_str());
        s
    }

    pub fn trigger_name(&self) -> (r: String)
        ensures
            r@ == spec_trigger_name(self@.name),
    {
        let mut s = String::from_str("liveo_trigger_");
        s.append(self.name.as_str());
        s
    }
}

impl Clone for TrackTable {
    fn clone(&self) -> (t: TrackTable)
        ensures
            t@ == self@,
    {
        let track: Vec<Col> = self.track.clone();
        proof {
            assert forall|i: int| 0 <= i < track@.len() implies track@[i]@ == self.track@[i]@ by {
                assert(vstd::pervasive::cloned::<Col>(self.track@[i], track@[i]));
            }
            assert(track@.map_values(|c: Col| c@) =~= self.track@.map_values(|c: Col| c@));
        }
        let p_id = match &self.p_id {
            Some(c) => Some(c.clone()),
            None => None,
        };
        let t = TrackTable {
            id: self.id,
            name: self.name.clone(),
            on: self.on,
            p_id,
            table: self.table.clone(),
            track,
            old: self.old,
            new: self.new,
            created_at: self.created_at,
            updated_at: self.updated_at,
        };
        proof {
            assert(t@ =~= self@);
        }
        t
    }
}

/// Two definitions denote the same registry entry exactly when their derived
/// tracking-table names coincide, which happens exactly when their tracking
/// names coincide.
pub proof fn lemma_table_name_injective(a: Seq<char>, b: Seq<char>)
    ensures
        spec_table_name(a) == spec_table_name(b) <==> a == b,
{
    reveal_strlit("liveo_tracktable_");
    if spec_table_name(a) == spec_table_name(b) {
        let p = "liveo_tracktable_"@;
        assert(a =~= spec_table_name(a).skip(p.len() as int));
        assert(b =~= spec_table_name(b).skip(p.len() as int));
    }
}

/// Every derived object name of a well-formed definition passes the
/// identifier validator: the fixed prefixes consist of identifier characters
/// and begin with a letter, and the 46-character bound on the tracking name
/// keeps each full name within 63 characters.
pub proof fn lemma_derived_names_are_identifiers(name: Seq<char>)
    requires
        is_identifier(name),
        name.len() <= MAX_NAME_LEN,
    ensures
        is_identifier(spec_table_name(name)),
        is_identifier(spec_func_name(name)),
        is_identifier(spec_trigger_name(name)),
{
    reveal_strlit("liveo_tracktable_");
    reveal_strlit("liveo_func_");
    reveal_strlit("liveo_trigger_");
    assert forall|i: int|
        0 <= i < "liveo_tracktable_"@.len() implies is_word_char("liveo_tracktable_"@[i]) by {
        if i == 0 {
        } else if i == 1 {
        } else if i == 2 {
        } else if i == 3 {
        } else if i == 4 {
        } else if i == 5 {
        } else if i == 6 {
        } else if i == 7 {
        } else if i == 8 {
        } else if i == 9 {
        } else if i == 10 {
        } else if i == 11 {
        } else if i == 12 {
        } else if i == 13 {
        } else if i == 14 {
        } else if i == 15 {
        } else {
            assert(i == 16);
        }
    }
    assert forall|i: int| 0 <= i < "liveo_func_"@.len() implies is_word_char("liveo_func_"@[i]) by {
        if i == 0 {
        } else if i == 1 {
        } else if i == 2 {
        } else if i == 3 {
        } else if i == 4 {
        } else if i == 5 {
        } else if i == 6 {
        } else if i == 7 {
        } else if i == 8 {
        } else if i == 9 {
        } else {
            assert(i == 10);
        }
    }
    assert forall|i: int|
        0 <= i < "liveo_trigger_"@.len() implies is_word_char("liveo_trigger_"@[i]) by {
        if i == 0 {
        } else if i == 1 {
        } else if i == 2 {
        } else if i == 3 {
        } else if i == 4 {
        } else if i == 5 {
        } else if i == 6 {
        } else if i == 7 {
        } else if i == 8 {
        } else if i == 9 {
        } else if i == 10 {
        } else if i == 11 {
        } else if i == 12 {
        } else {
            assert(i == 13);
        }
    }
    assert(spec_table_name(name)[0] == "liveo_tracktable_"@[0]);
    assert(spec_func_name(name)[0] == "liveo_func_"@[0]);
    assert(spec_trigger_name(name)[0] == "liveo_trigger_"@[0]);
    assert forall|i: int| 0 <= i < spec_table_name(name).len() implies is_word_char(
        #[trigger] spec_table_name(name)[i],
    ) by {
        if i >= "liveo_tracktable_"@.len() {
            assert(spec_table_name(name)[i] == name[i - "liveo_tracktable_"@.len()]);
        }
    }
    assert forall|i: int| 0 <= i < spec_func_name(name).len() implies is_word_char(
        #[trigger] spec_func_name(name)[i],
    ) by {
        if i >= "liveo_func_"@.len() {
            assert(spec_func_name(name)[i] == name[i - "liveo_func_"@.len()]);
        }
    }
    assert forall|i: int| 0 <= i < spec_trigger_name(name).len() implies is_word_char(
        #[trigger] spec_trigger_name(name)[i],
    ) by {
        if i >= "liveo_trigger_"@.len() {
            assert(spec_trigger_name(name)[i] == name[i - "liveo_trigger_"@.len()]);
        }
    }
}

} // verus!
