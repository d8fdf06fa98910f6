use vstd::prelude::*;

use crate::resource::Resource;
use crate::calculation::texts_views;
use crate::text::text_equals;

verus! {

/// The words that, in a snapshot warning, introduce the instance type the
/// warning is about ("EC2 Standard SQL rate for m5.large uses ...").
pub open spec fn subject_marker() -> Seq<char> {
    " rate for "@
}

/// The marker stands at position `i` of the warning.
pub open spec fn marker_at(w: Seq<char>, i: int) -> bool {
    0 <= i && i + subject_marker().len() <= w.len() && w.subrange(i, i + subject_marker().len()) == subject_marker()
}

/// The first position at or after `i` where the marker stands.
pub open spec fn first_marker(w: Seq<char>, i: int) -> Option<int>
    decreases w.len() - i,
{
    if i < 0 || i >= w.len() || i + subject_marker().len() > w.len() {
        None
    } else if marker_at(w, i) {
        Some(i)
    } else {
        first_marker(w, i + 1)
    }
}

/// The end of the word that starts at `j`: the first space at or after `j`, or
/// the end of the text.
pub open spec fn word_end(w: Seq<char>, j: int) -> int
    decreases w.len() - j,
{
    if j < 0 || j >= w.len() {
        w.len() as int
    } else if w[j] == ' ' {
        j
    } else {
        word_end(w, j + 1)
    }
}

/// The instance type a snapshot warning is about: the word after the first
/// " rate for ", if the warning has one.
pub open spec fn warning_subject(w: Seq<char>) -> Option<Seq<char>> {
    match first_marker(w, 0) {
        Some(i) => {
            let start = i + subject_marker().len();
            Some(w.subrange(start, word_end(w, start)))
        },
        None => None,
    }
}

/// The instance type of an EC2, EC2 VM or RDS resource; an on-premises server has none.
pub open spec fn instance_type_of(resource: Resource) -> Option<Seq<char>> {
    match resource {
        Resource::Ec2(r) => Some(r.instance_type@),
        Resource::Ec2Vm(r) => Some(r.instance_type@),
        Resource::Rds(r) => Some(r.instance_type@),
        Resource::OnPrem(_) => None,
    }
}

/// Some submitted resource has this instance type.
pub open spec fn submitted_type(resources: Seq<Resource>, t: Seq<char>) -> bool {
    exists|k: int| 0 <= k < resources.len() && instance_type_of(#[trigger] resources[k]) == Some(t)
}

/// A warning concerns the submitted resources unless it is about an instance
/// type that none of them has.
pub open spec fn relevant_warning(w: Seq<char>, resources: Seq<Resource>) -> bool {
    match warning_subject(w) {
        Some(t) => submitted_type(resources, t),
        None => true,
    }
}

/// The warnings that concern the submitted resources, in their order.
pub open spec fn relevant_warnings(warnings: Seq<Seq<char>>, resources: Seq<Resource>) -> Seq<Seq<char>>
    decreases warnings.len(),
{
    if warnings.len() == 0 {
        seq![]
    } else {
        let rest = relevant_warnings(warnings.drop_last(), resources);
        if relevant_warning(warnings.last(), resources) {
            rest.push(warnings.last())
        } else {
            rest
        }
    }
}

fn find_marker(w: &str) -> (r: Option<usize>)
    ensures
        r matches Some(i) ==> first_marker(w@, 0) == Some(i as int) && i + 10 <= w@.len(),
        r is None ==> first_marker(w@, 0) is None,
{
    proof {
        reveal_strlit(" rate for ");
    }
    let n = w.unicode_len();
    let mut i: usize = 0;
    while i < n && 10 <= n - i
        invariant
            n == w@.len(),
            subject_marker().len() == 10,
            first_marker(w@, 0) == first_marker(w@, i as int),
        decreases n - i,
    {
        let here = w.substring_char(i, i + 10);
        if text_equals(here, " rate for ") {
            return Some(i);
        }
        i = i + 1;
    }
    None
}

fn find_word_end(w: &str, start: usize) -> (r: usize)
    requires
        start <= w@.len(),
    ensures
        r == word_end(w@, start as int),
        start <= r <= w@.len(),
{
    let n = w.unicode_len();
    let mut j: usize = start;
    while j < n && w.get_char(j) != ' '
        invariant
            n == w@.len(),
            start <= j <= n,
            word_end(w@, start as int) == word_end(w@, j as int),
        decreases n - j,
    {
        j = j + 1;
    }
    j
}

/// The instance type a snapshot warning is about, if any.
pub fn subject_of(w: &str) -> (r: Option<&str>)
    ensures
        match warning_subject(w@) {
            Some(t) => r matches Some(s) && s@ == t,
            None => r is None,
        },
{
    proof {
        reveal_strlit(" rate for ");
    }
    let n = w.unicode_len();
    match find_marker(w) {
        Some(i) => {
            let start = i + 10;
            let end = find_word_end(w, start);
            let t = w.substring_char(start, end);
            proof {
                assert(first_marker(w@, 0) == Some(i as int));
                assert(subject_marker().len() == 10);
                assert(t@ == w@.subrange(start as int, end as int));
            }
            Some(t)
        },
        None => None,
    }
}

fn instance_type(resource: &Resource) -> (r: Option<&str>)
    ensures
        match instance_type_of(*resource) {
            Some(t) => r matches Some(s) && s@ == t,
            None => r is None,
        },
{
    match resource {
        Resource::Ec2(r) => Some(r.instance_type.as_str()),
        Resource::Ec2Vm(r) => Some(r.instance_type.as_str()),
        Resource::Rds(r) => Some(r.instance_type.as_str()),
        Resource::OnPrem(_) => None,
    }
}

/// Whether the warning concerns the submitted resources.
pub fn is_relevant(w: &str, resources: &Vec<Resource>) -> (r: bool)
    ensures
        r == relevant_warning(w@, resources@),
{
    let subject = match subject_of(w) {
        Some(t) => t,
        None => {
            return true;
        },
    };
    let mut k: usize = 0;
    while k < resources.len()
        invariant
            k <= resources@.len(),
            warning_subject(w@) == Some(subject@),
            forall|j: int| 0 <= j < k ==> instance_type_of(#[trigger] resources@[j]) != Some(subject@),
        decreases resources@.len() - k,
    {
        match instance_type(&resources[k]) {
            Some(t) => {
                if text_equals(t, subject) {
                    return true;
                }
            },
            None => {},
        }
        k = k + 1;
    }
    false
}

/// The warnings that concern the submitted resources, in their order: a
/// warning about an instance type that no submitted resource has is left out.
pub fn relevant_for_resources(warnings: &Vec<String>, resources: &Vec<Resource>) -> (r: Vec<String>)
    ensures
        texts_views(r@) == relevant_warnings(texts_views(warnings@), resources@),
{
    let mut out: Vec<String> = Vec::new();
    let mut i: usize = 0;
    while i < warnings.len()
        invariant
            i <= warnings@.len(),
            texts_views(out@) == relevant_warnings(
                texts_views(warnings@.take(i as int)),
                resources@,
            ),
        decreases warnings@.len() - i,
    {
        let ghost before = out@;
        let relevant = is_relevant(warnings[i].as_str(), resources);
        if relevant {
            out.push(warnings[i].clone());
        }
        proof {
            let prev = texts_views(warnings@.take(i as int));
            let next = texts_views(warnings@.take(i + 1));
            assert(next.drop_last() =~= prev);
            assert(next.last() == warnings@[i as int]@);
            if relevant {
                assert(texts_views(out@) =~= texts_views(before).push(
                    warnings@[i as int]@,
                ));
            } else {
                assert(out@ == before);
            }
        }
        i = i + 1;
    }
    assert(warnings@.take(i as int) =~= warnings@);
    out
}

proof fn lemma_first_marker(w: Seq<char>, i: int)
    requires
        0 <= i,
    ensures
        match first_marker(w, i) {
            Some(k) => i <= k && marker_at(w, k) && forall|j: int| i <= j < k ==> !marker_at(w, j),
            None => forall|j: int| i <= j ==> !marker_at(w, j),
        },
    decreases w.len() - i,
{
    reveal_strlit(" rate for ");
    if !(i >= w.len() || i + subject_marker().len() > w.len()) && !marker_at(w, i) {
        lemma_first_marker(w, i + 1);
    }
}

proof fn lemma_word_end(w: Seq<char>, j: int)
    requires
        0 <= j <= w.len(),
    ensures
        j <= word_end(w, j) <= w.len(),
        forall|k: int| j <= k < word_end(w, j) ==> w[k] != ' ',
        word_end(w, j) == w.len() || w[word_end(w, j)] == ' ',
    decreases w.len() - j,
{
    if j < w.len() && w[j] != ' ' {
        lemma_word_end(w, j + 1);
    }
}

/// The ten characters of a warning from position `j`, as long as " rate for ".
pub open spec fn window(w: Seq<char>, j: int) -> Seq<char> {
    w.subrange(j, j + 10)
}

/// The subject of a snapshot warning is the word right after its first
/// " rate for ": the warning has the marker at some position and none before it,
/// and the subject is the run of non-space characters that follows, up to a
/// space or the end; a warning without the marker has no subject.
pub proof fn lemma_warning_subject(w: Seq<char>)
    ensures
        match warning_subject(w) {
            Some(t) => exists|i: int|
                0 <= i && i + 10 + t.len() <= w.len() && #[trigger] window(w, i) == " rate for "@ && (forall|j: int|
                    0 <= j < i ==> #[trigger] window(w, j) != " rate for "@) && w.subrange(i + 10, i + 10 + t.len())
                    == t && (forall|k: int| 0 <= k < t.len() ==> t[k] != ' ') && (i + 10 + t.len() == w.len() || w[i
                    + 10 + t.len()] == ' '),
            None => forall|j: int| 0 <= j && j + 10 <= w.len() ==> #[trigger] window(w, j) != " rate for "@,
        },
{
    reveal_strlit(" rate for ");
    lemma_first_marker(w, 0);
    match first_marker(w, 0) {
        Some(i) => {
            let start = i + 10;
            lemma_word_end(w, start);
            let t = w.subrange(start, word_end(w, start));
            assert forall|j: int| 0 <= j < i implies #[trigger] window(w, j) != " rate for "@ by {
                assert(!marker_at(w, j));
            }
            assert(w.subrange(start, start + t.len()) =~= t);
            assert(window(w, i) == " rate for "@);
        },
        None => {
            assert forall|j: int| 0 <= j && j + 10 <= w.len() implies #[trigger] window(w, j) != " rate for "@ by {
                assert(!marker_at(w, j));
            }
        },
    }
}

/// A warning is kept exactly when it names no instance type, or names one that
/// some submitted resource (an EC2, EC2 VM or RDS resource) has; the kept
/// warnings keep their order: a warning added at the end is kept at the end or
/// dropped.
pub proof fn lemma_relevant_warnings(warnings: Seq<Seq<char>>, w: Seq<char>, resources: Seq<Resource>)
    ensures
        relevant_warning(w, resources) <==> (warning_subject(w) is None || exists|k: int|
            0 <= k < resources.len() && match #[trigger] resources[k] {
                Resource::Ec2(r) => r.instance_type@ == warning_subject(w).unwrap(),
                Resource::Ec2Vm(r) => r.instance_type@ == warning_subject(w).unwrap(),
                Resource::Rds(r) => r.instance_type@ == warning_subject(w).unwrap(),
                Resource::OnPrem(_) => false,
            }),
        relevant_warnings(Seq::<Seq<char>>::empty(), resources) == Seq::<Seq<char>>::empty(),
        relevant_warnings(warnings.push(w), resources) == if relevant_warning(w, resources) {
            relevant_warnings(warnings, resources).push(w)
        } else {
            relevant_warnings(warnings, resources)
        },
{
    assert(warnings.push(w).drop_last() =~= warnings);
    if warning_subject(w) is Some {
        let t = warning_subject(w).unwrap();
        if submitted_type(resources, t) {
            let k = choose|k: int| 0 <= k < resources.len() && instance_type_of(#[trigger] resources[k]) == Some(t);
            assert(match resources[k] {
                Resource::Ec2(r) => r.instance_type@ == t,
                Resource::Ec2Vm(r) => r.instance_type@ == t,
                Resource::Rds(r) => r.instance_type@ == t,
                Resource::OnPrem(_) => false,
            });
        }
        if exists|k: int|
            0 <= k < resources.len() && match #[trigger] resources[k] {
                Resource::Ec2(r) => r.instance_type@ == t,
                Resource::Ec2Vm(r) => r.instance_type@ == t,
                Resource::Rds(r) => r.instance_type@ == t,
                Resource::OnPrem(_) => false,
            } {
            let k = choose|k: int|
                0 <= k < resources.len() && match #[trigger] resources[k] {
                    Resource::Ec2(r) => r.instance_type@ == t,
                    Resource::Ec2Vm(r) => r.instance_type@ == t,
                    Resource::Rds(r) => r.instance_type@ == t,
                    Resource::OnPrem(_) => false,
                };
            assert(instance_type_of(resources[k]) == Some(t));
        }
    }
}

} // verus!
