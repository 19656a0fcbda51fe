//! Deriving a deterministic artifact name from the uploaded filename,
//! the allocated task id and the target extension.
//!
//! The name has the form `<stem>_<task_id>.<extension>`; since a decimal
//! number holds no underscore, names with the same stem and extension
//! but different ids never collide.

use vstd::prelude::*;
use crate::errors::ServiceError;
use crate::text::lemma_decimal_injective;
use crate::text::spec_decimal;
use crate::text::u64_to_decimal;

verus! {

/// The index of the last `'.'` in `s` that does not stand first,
/// or -1 if there is none.
pub open spec fn last_dot(s: Seq<char>) -> int
    decreases s.len(),
{
    if s.len() <= 1 {
        -1
    } else if s[s.len() - 1] == '.' {
        s.len() - 1
    } else {
        last_dot(s.take(s.len() - 1))
    }
}

/// When `s` holds no dot after its first character, there is no last dot.
pub proof fn lemma_no_dot(s: Seq<char>)
    requires
        forall|j: int| 1 <= j < s.len() ==> s[j] != '.',
    ensures
        last_dot(s) == -1,
    decreases s.len(),
{
    if s.len() > 1 {
        let t = s.take(s.len() - 1);
        assert(forall|j: int| 1 <= j < t.len() ==> t[j] == s[j]);
        lemma_no_dot(t);
    }
}

/// The last dot is the dot after which no further dot stands.
pub proof fn lemma_last_dot_is(s: Seq<char>, k: int)
    requires
        1 <= k < s.len(),
        s[k] == '.',
        forall|j: int| k < j < s.len() ==> s[j] != '.',
    ensures
        last_dot(s) == k,
    decreases s.len(),
{
    if s[s.len() - 1] == '.' {
        assert(k == s.len() - 1);
    } else {
        let t = s.take(s.len() - 1);
        assert(t[k] == s[k]);
        assert(forall|j: int| k < j < t.len() ==> t[j] == s[j]);
        lemma_last_dot_is(t, k);
    }
}

/// The filename's stem: the portion before its final extension.
///
/// A name that is empty, `"."` or `".."` has no usable stem. A name
/// whose only dot stands first (a bare dotfile) is its own stem;
/// otherwise the stem is everything before the last dot.
pub open spec fn spec_stem(s: Seq<char>) -> Option<Seq<char>> {
    if s.len() == 0 || s == "."@ || s == ".."@ {
        None
    } else if last_dot(s) >= 1 {
        Some(s.take(last_dot(s)))
    } else {
        Some(s)
    }
}

/// Extracts the filename stem, or reports that none is usable.
pub fn file_stem(name: &str) -> (r: Option<String>)
    ensures
        r is Some <==> spec_stem(name@) is Some,
        r matches Some(st) ==> Some(st@) == spec_stem(name@),
{
    proof {
        reveal_strlit(".");
        reveal_strlit("..");
    }
    let n = name.unicode_len();
    if n == 0 {
        return None;
    }
    if n == 1 && name.get_char(0) == '.' {
        proof {
            assert(name@ =~= "."@);
        }
        return None;
    }
    if n == 2 && name.get_char(0) == '.' && name.get_char(1) == '.' {
        proof {
            assert(name@ =~= ".."@);
        }
        return None;
    }
    proof {
        assert(name@ != "."@) by {
            if name@ == "."@ {
                assert(name@.len() == 1 && name@[0] == '.');
            }
        }
        assert(name@ != ".."@) by {
            if name@ == ".."@ {
                assert(name@.len() == 2 && name@[0] == '.' && name@[1] == '.');
            }
        }
    }
    let mut i: usize = n;
    let mut found: usize = 0;
    while i > 1 && found == 0
        invariant
            n == name@.len(),
            1 <= n,
            1 <= i <= n,
            found == 0 ==> forall|j: int| i <= j < n ==> name@[j] != '.',
            found >= 1 ==> 1 <= found < n && name@[found as int] == '.' && forall|j: int|
                found < j < n ==> name@[j] != '.',
        decreases i, (if found == 0 { 1int } else { 0int }),
    {
        if name.get_char(i - 1) == '.' {
            found = i - 1;
        } else {
            i -= 1;
        }
    }
    if found == 0 {
        proof {
            lemma_no_dot(name@);
        }
        Some(String::from_str(name))
    } else {
        proof {
            lemma_last_dot_is(name@, found as int);
        }
        let stem = name.substring_char(0, found);
        proof {
            assert(stem@ =~= name@.take(found as int));
        }
        Some(String::from_str(stem))
    }
}

/// The artifact name `<stem>_<id>.<ext>`.
pub open spec fn spec_artifact_name(stem: Seq<char>, id: nat, ext: Seq<char>) -> Seq<char> {
    stem + "_"@ + spec_decimal(id) + "."@ + ext
}

/// The artifact's resting place under the persistent-storage root.
pub open spec fn spec_output_filepath(stem: Seq<char>, id: nat, ext: Seq<char>) -> Seq<char> {
    "downloads/"@ + spec_artifact_name(stem, id, ext)
}

/// Names the converted artifact for one task: the uploaded filename's
/// stem, the task id and the target extension, joined as
/// `<stem>_<id>.<ext>`. Fails only when the filename has no usable stem.
pub fn artifact_name(filename: &str, output_format: &str, task_id: i32) -> (r: Result<
    String,
    ServiceError,
>)
    requires
        1 <= task_id,
    ensures
        r is Ok <==> spec_stem(filename@) is Some,
        r matches Ok(s) ==> Some(s@) == spec_artifact_name_of(filename@, task_id as nat, output_format@),
        r matches Err(e) ==> e is InvalidName,
{
    match file_stem(filename) {
        None => Err(ServiceError::InvalidName),
        Some(stem) => {
            let digits = u64_to_decimal(task_id as u64);
            let s = stem.concat("_").concat(digits.as_str()).concat(".").concat(output_format);
            proof {
                assert(s@ =~= spec_artifact_name(
                    spec_stem(filename@).unwrap(),
                    task_id as nat,
                    output_format@,
                ));
            }
            Ok(s)
        },
    }
}

/// The artifact name derived from a raw filename, where it has a stem.
pub open spec fn spec_artifact_name_of(name: Seq<char>, id: nat, ext: Seq<char>) -> Option<
    Seq<char>,
> {
    match spec_stem(name) {
        None => None,
        Some(stem) => Some(spec_artifact_name(stem, id, ext)),
    }
}

/// The full output path for one task: the artifact name joined under
/// the persistent-storage root.
pub fn generate_output_filepath(filename: &str, output_format: &str, task_id: i32) -> (r: Result<
    String,
    ServiceError,
>)
    requires
        1 <= task_id,
    ensures
        r is Ok <==> spec_stem(filename@) is Some,
        r matches Ok(s) ==> (spec_stem(filename@) matches Some(stem) && s@ == spec_output_filepath(
            stem,
            task_id as nat,
            output_format@,
        )),
        r matches Err(e) ==> e is InvalidName,
{
    match artifact_name(filename, output_format, task_id) {
        Err(e) => Err(e),
        Ok(name) => {
            let p = String::from_str("downloads/").concat(name.as_str());
            Ok(p)
        },
    }
}

/// Artifact names embed the task id, so two tasks with the same stem and
/// extension still get distinct names.
pub proof fn lemma_artifact_names_unique(stem: Seq<char>, id1: nat, id2: nat, ext: Seq<char>)
    requires
        id1 != id2,
    ensures
        spec_artifact_name(stem, id1, ext) != spec_artifact_name(stem, id2, ext),
{
    let a = spec_artifact_name(stem, id1, ext);
    let b = spec_artifact_name(stem, id2, ext);
    let d1 = spec_decimal(id1);
    let d2 = spec_decimal(id2);
    reveal_strlit("_");
    reveal_strlit(".");
    if a == b {
        assert("_"@.len() == 1 && "."@.len() == 1);
        assert(a.len() == stem.len() + 1 + d1.len() + 1 + ext.len());
        assert(b.len() == stem.len() + 1 + d2.len() + 1 + ext.len());
        assert(d1.len() == d2.len());
        assert(d1 =~= d2) by {
            assert forall|j: int| 0 <= j < d1.len() implies d1[j] == d2[j] by {
                let off = stem.len() + 1;
                assert(a[off + j] == (stem + "_"@ + d1)[off + j]);
                assert((stem + "_"@ + d1)[off + j] == d1[j]);
                assert(b[off + j] == (stem + "_"@ + d2)[off + j]);
                assert((stem + "_"@ + d2)[off + j] == d2[j]);
            }
        }
        lemma_decimal_injective(id1, id2);
        assert(false);
    }
}

} // verus!
