use vstd::prelude::*;
use vstd::string::StrSliceExecFns;
use vstd::string::StringExecFns;

verus! {

use crate::errors::{GrpError, NativeOp, cerror_message, native_error};
use crate::identity::Gid;

/// Size in bytes of the first scratch buffer offered to the directory
/// lookup; it doubles on every "too small" signal.
pub const INITIAL_LOOKUP_BUFFER: usize = 128;

/// A group name can be handed to the native lookup only if it carries no
/// embedded null character: the lookup takes a null-terminated string.
pub open spec fn valid_group_name(name: Seq<char>) -> bool {
    forall|i: int| 0 <= i < name.len() ==> name[i] != '\0'
}

/// Decides whether a group name is representable as a native
/// null-terminated string.
pub fn group_name_is_representable(name: &str) -> (b: bool)
    ensures
        b == valid_group_name(name@),
{
    let len = name.unicode_len();
    let mut i: usize = 0;
    while i < len
        invariant
            len == name@.len(),
            0 <= i <= len,
            forall|j: int| 0 <= j < i ==> name@[j] != '\0',
        decreases len - i,
    {
        if name.get_char(i) == '\0' {
            return false;
        }
        i = i + 1;
    }
    true
}

/// What one native lookup attempt reported.
#[derive(Debug)]
pub enum LookupOutcome {
    /// The lookup completed and a record matched.
    Found { gid: u32 },
    /// The lookup completed without error and no record matched.
    Absent,
    /// The scratch buffer was too small for the matching record.
    InsufficientBuffer,
    /// The lookup itself failed, with the platform's rendered error text.
    Failed { detail: String },
}

/// The resolver's decision after one lookup attempt.
#[derive(Debug)]
pub enum ResolveStep {
    /// Run the lookup again with a scratch buffer of this many bytes.
    Retry { buf_len: usize },
    /// Resolution is over, with this result.
    Done { result: Result<Gid, GrpError> },
}

/// Next scratch-buffer size after a "too small" signal: doubled, saturating
/// at the machine limit.
pub open spec fn grown_buffer(buf_len: usize) -> usize {
    if buf_len <= usize::MAX / 2 {
        (buf_len * 2) as usize
    } else {
        usize::MAX
    }
}

/// One step of the resolution protocol: how the resolver reacts to what
/// the native lookup reported. A completed lookup with no matching record
/// is absence, not failure; only a failed lookup becomes `CError`.
pub fn resolve_step(buf_len: usize, outcome: LookupOutcome) -> (step: ResolveStep)
    ensures
        (outcome matches LookupOutcome::Found { gid } ==> (step matches ResolveStep::Done {
            result,
        } && result matches Ok(g) && g == Gid(gid))),
        (outcome is Absent ==> (step matches ResolveStep::Done { result } && result matches Err(e)
            && e is NoSuchGroup)),
        (outcome is InsufficientBuffer ==> (step matches ResolveStep::Retry { buf_len: n } && n
            == grown_buffer(buf_len))),
        (outcome matches LookupOutcome::Failed { detail } ==> (step matches ResolveStep::Done {
            result,
        } && result matches Err(e) && e matches GrpError::CError(m) && m@ == cerror_message(
            NativeOp::GroupLookup,
            detail@,
        ))),
{
    match outcome {
        LookupOutcome::Found { gid } => ResolveStep::Done { result: Ok(Gid(gid)) },
        LookupOutcome::Absent => ResolveStep::Done { result: Err(GrpError::NoSuchGroup) },
        LookupOutcome::InsufficientBuffer => {
            let n: usize = if buf_len <= usize::MAX / 2 {
                buf_len * 2
            } else {
                usize::MAX
            };
            ResolveStep::Retry { buf_len: n }
        },
        LookupOutcome::Failed { detail } => ResolveStep::Done {
            result: Err(native_error(NativeOp::GroupLookup, detail.as_str())),
        },
    }
}

/// One record of the group directory as the model sees it: the group's
/// name, its identifier, and how many scratch-buffer bytes the native
/// lookup needs to return it.
#[derive(Debug)]
pub struct GroupRecord {
    pub name: String,
    pub gid: u32,
    pub record_size: usize,
}

/// A model of the system's group directory. `lookup_failure` stands for
/// the native lookup failing outright, as a remote directory service can.
#[derive(Debug)]
pub struct Directory {
    pub records: Vec<GroupRecord>,
    pub lookup_failure: Option<String>,
}

/// The first record whose name matches, if any.
pub open spec fn find_record(records: Seq<GroupRecord>, name: Seq<char>) -> Option<GroupRecord>
    decreases records.len(),
{
    if records.len() == 0 {
        None
    } else if records[0].name@ == name {
        Some(records[0])
    } else {
        find_record(records.drop_first(), name)
    }
}

/// A record carrying the name makes the search succeed.
proof fn lemma_match_implies_found(records: Seq<GroupRecord>, name: Seq<char>, i: int)
    requires
        0 <= i < records.len(),
        records[i].name@ == name,
    ensures
        find_record(records, name) is Some,
    decreases records.len(),
{
    if records[0].name@ != name {
        assert(records.drop_first()[i - 1] == records[i]);
        lemma_match_implies_found(records.drop_first(), name, i - 1);
    }
}

/// A successful search rests on some record carrying the name.
proof fn lemma_found_implies_match(records: Seq<GroupRecord>, name: Seq<char>)
    requires
        find_record(records, name) is Some,
    ensures
        exists|i: int| 0 <= i < records.len() && records[i].name@ == name,
    decreases records.len(),
{
    if records[0].name@ == name {
        assert(0 <= 0 < records.len() && records[0].name@ == name);
    } else {
        lemma_found_implies_match(records.drop_first(), name);
        let j = choose|j: int|
            0 <= j < records.drop_first().len() && records.drop_first()[j].name@ == name;
        assert(records.drop_first()[j] == records[j + 1]);
        assert(0 <= j + 1 < records.len() && records[j + 1].name@ == name);
    }
}

/// A name misses the directory exactly when no record carries it.
pub proof fn lemma_find_record_absent(records: Seq<GroupRecord>, name: Seq<char>)
    ensures
        find_record(records, name) is None <==> (forall|i: int|
            0 <= i < records.len() ==> records[i].name@ != name),
{
    if find_record(records, name) is None {
        assert forall|i: int| 0 <= i < records.len() implies records[i].name@ != name by {
            if records[i].name@ == name {
                lemma_match_implies_found(records, name, i);
            }
        }
    } else {
        lemma_found_implies_match(records, name);
        let k = choose|i: int| 0 <= i < records.len() && records[i].name@ == name;
        assert(records[k].name@ == name);
    }
}

/// Searching past a matchless prefix finds the first matching record.
proof fn lemma_find_record_at(records: Seq<GroupRecord>, name: Seq<char>, i: int)
    requires
        0 <= i < records.len(),
        forall|j: int| 0 <= j < i ==> records[j].name@ != name,
        records[i].name@ == name,
    ensures
        find_record(records, name) == Some(records[i]),
    decreases i,
{
    if i > 0 {
        assert(forall|j: int|
            0 <= j < records.drop_first().len() ==> records.drop_first()[j]
                == records[j + 1]);
        lemma_find_record_at(records.drop_first(), name, i - 1);
    }
}

impl Directory {
    /// One native lookup attempt against this directory with a scratch
    /// buffer of `buf_len` bytes.
    pub fn lookup(&self, name: &String, buf_len: usize) -> (o: LookupOutcome)
        ensures
            (self.lookup_failure matches Some(d) ==> (o matches LookupOutcome::Failed { detail }
                && detail@ == d@)),
            self.lookup_failure is None ==> match find_record(self.records@, name@) {
                Option::None => o is Absent,
                Option::Some(rec) => {
                    &&& rec.record_size > buf_len ==> o is InsufficientBuffer
                    &&& rec.record_size <= buf_len ==> (o matches LookupOutcome::Found { gid }
                        && gid == rec.gid)
                },
            },
    {
        if let Some(d) = &self.lookup_failure {
            return LookupOutcome::Failed { detail: d.clone() };
        }
        let n = self.records.len();
        let mut i: usize = 0;
        while i < n
            invariant
                n == self.records@.len(),
                0 <= i <= n,
                self.lookup_failure is None,
                forall|j: int| 0 <= j < i ==> self.records@[j].name@ != name@,
            decreases n - i,
        {
            let rec = &self.records[i];
            if rec.name == *name {
                proof {
                    lemma_find_record_at(self.records@, name@, i as int);
                }
                if rec.record_size > buf_len {
                    return LookupOutcome::InsufficientBuffer;
                } else {
                    return LookupOutcome::Found { gid: rec.gid };
                }
            }
            i = i + 1;
        }
        proof {
            lemma_find_record_absent(self.records@, name@);
        }
        LookupOutcome::Absent
    }
}

/// Iterations the doubling protocol can still need: how far the scratch
/// buffer is from the matching record's size, if one matches at all.
pub open spec fn lookup_fuel(dir: Directory, name: Seq<char>, buf_len: usize) -> int {
    match find_record(dir.records@, name) {
        Option::Some(rec) => if rec.record_size > buf_len {
            rec.record_size - buf_len
        } else {
            0
        },
        Option::None => 0,
    }
}

/// Resolves a group name to its identifier against the directory model,
/// running the growable-buffer protocol: the scratch buffer starts at
/// `INITIAL_LOOKUP_BUFFER` bytes and doubles on every "too small" signal,
/// with no other retry condition. A name with an embedded null character
/// is absence, decided before any lookup; a record too large for one
/// attempt still resolves after enough growth.
pub fn resolve_group(dir: &Directory, name: &str) -> (r: Result<Gid, GrpError>)
    ensures
        (!valid_group_name(name@) ==> (r matches Err(e) && e is NoSuchGroup)),
        (valid_group_name(name@) && dir.lookup_failure is Some ==> (r matches Err(e)
            && e matches GrpError::CError(m) && m@ == cerror_message(
            NativeOp::GroupLookup,
            (dir.lookup_failure->Some_0)@,
        ))),
        (valid_group_name(name@) && dir.lookup_failure is None && find_record(
            dir.records@,
            name@,
        ) is None ==> (r matches Err(e) && e is NoSuchGroup)),
        (valid_group_name(name@) && dir.lookup_failure is None && find_record(
            dir.records@,
            name@,
        ) is Some ==> (r matches Ok(g) && g == Gid(
            (find_record(dir.records@, name@)->Some_0).gid,
        ))),
{
    if !group_name_is_representable(name) {
        return Err(GrpError::NoSuchGroup);
    }
    let owned = String::from_str(name);
    let mut buf_len: usize = INITIAL_LOOKUP_BUFFER;
    loop
        invariant
            owned@ == name@,
            valid_group_name(name@),
            buf_len >= 1,
        decreases lookup_fuel(*dir, name@, buf_len),
    {
        let outcome = dir.lookup(&owned, buf_len);
        match resolve_step(buf_len, outcome) {
            ResolveStep::Retry { buf_len: n } => {
                buf_len = n;
            },
            ResolveStep::Done { result } => {
                return result;
            },
        }
    }
}

} // verus!
