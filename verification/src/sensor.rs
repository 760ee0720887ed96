//! Choosing the temperature sensor that stands for the CPU.

use vstd::prelude::*;
use crate::text::{contains_text, lowercase_of, occurs_in, to_lower};

verus! {

/// A sensor label names the CPU when, lower-cased, it contains `cpu`,
/// `core`, `package` or `k10temp`.
pub open spec fn is_cpu_label(label: Seq<char>) -> bool {
    let l = lowercase_of(label);
    ||| occurs_in(l, "cpu"@)
    ||| occurs_in(l, "core"@)
    ||| occurs_in(l, "package"@)
    ||| occurs_in(l, "k10temp"@)
}

/// Lower-cased text that contains one of the keywords of a CPU sensor.
pub open spec fn has_cpu_keyword(l: Seq<char>) -> bool {
    occurs_in(l, "cpu"@) || occurs_in(l, "core"@) || occurs_in(l, "package"@) || occurs_in(
        l,
        "k10temp"@,
    )
}

/// A label names the CPU exactly when its lower-cased text holds one of the
/// keywords `cpu`, `core`, `package`, `k10temp`; a label with none of them,
/// such as `acpitz temp1`, never does.
pub proof fn law_cpu_label_keywords(label: Seq<char>)
    ensures
        is_cpu_label(label) <==> has_cpu_keyword(lowercase_of(label)),
        !occurs_in(lowercase_of(label), "cpu"@) && !occurs_in(lowercase_of(label), "core"@)
            && !occurs_in(lowercase_of(label), "package"@) && !occurs_in(
            lowercase_of(label),
            "k10temp"@,
        ) ==> !is_cpu_label(label),
{
}

/// Whether a sensor label names the CPU.
pub fn cpu_label(label: &str) -> (r: bool)
    ensures
        r == is_cpu_label(label@),
        r <==> (occurs_in(lowercase_of(label@), "cpu"@) || occurs_in(lowercase_of(label@), "core"@)
            || occurs_in(lowercase_of(label@), "package"@) || occurs_in(
            lowercase_of(label@),
            "k10temp"@,
        )),
{
    let lower = to_lower(label);
    let l = lower.as_str();
    contains_text(l, "cpu") || contains_text(l, "core") || contains_text(l, "package")
        || contains_text(l, "k10temp")
}

/// Sensor `i` is one to take: it names the CPU and its reading is usable.
pub open spec fn is_candidate(labels: Seq<String>, usable: Seq<bool>, i: int) -> bool {
    usable[i] && is_cpu_label(labels[i]@)
}

/// The first sensor whose label names the CPU and whose reading is usable,
/// if any. `usable[i]` tells whether sensor `i` read a temperature that is
/// not at or below zero.
pub fn select_cpu_sensor(labels: &Vec<String>, usable: &Vec<bool>) -> (r: Option<usize>)
    requires
        labels.len() == usable.len(),
    ensures
        match r {
            Some(i) => i < labels.len() && is_candidate(labels@, usable@, i as int) && forall|
                j: int,
            | 0 <= j < i ==> !#[trigger] is_candidate(labels@, usable@, j),
            None => forall|j: int|
                0 <= j < labels.len() ==> !#[trigger] is_candidate(labels@, usable@, j),
        },
        r matches Some(i) ==> usable@[i as int] && has_cpu_keyword(
            lowercase_of(labels@[i as int]@),
        ),
        forall|j: int|
            0 <= j < labels.len() && usable@[j] && has_cpu_keyword(
                lowercase_of(#[trigger] labels@[j]@),
            ) ==> r is Some,
{
    let n = labels.len();
    let mut i: usize = 0;
    while i < n
        invariant
            n == labels.len(),
            n == usable.len(),
            i <= n,
            forall|j: int| 0 <= j < i ==> !#[trigger] is_candidate(labels@, usable@, j),
        decreases n - i,
    {
        let cpu = cpu_label(labels[i].as_str());
        if usable[i] && cpu {
            return Some(i);
        }
        i = i + 1;
    }
    proof {
        assert forall|j: int|
            0 <= j < labels.len() && usable@[j] implies !has_cpu_keyword(
            lowercase_of(#[trigger] labels@[j]@),
        ) by {
            assert(!is_candidate(labels@, usable@, j));
        }
    }
    None
}

} // verus!
