//! The interface classifier: given the names of the interfaces the operating
//! system currently backs with a real device, it applies the configured
//! include and exclude lists and yields the physical interface set. The
//! include list is applied first, the exclude list after it, so exclusion
//! always wins.

use vstd::prelude::*;
use crate::config::SysInfoConfig;

verus! {

/// Whether `name` occurs in `names`.
pub open spec fn name_in(names: Seq<String>, name: Seq<char>) -> bool {
    exists|i: int| 0 <= i < names.len() && names[i]@ == name
}

/// Whether an interface called `name` passes the configured filters:
/// it must be named by the include list when one is present, and must not
/// be named by the exclude list when one is present.
pub open spec fn passes_filter(config: SysInfoConfig, name: Seq<char>) -> bool {
    &&& match config.include_interfaces {
        Some(inc) => name_in(inc@, name),
        None => true,
    }
    &&& match config.exclude_interfaces {
        Some(exc) => !name_in(exc@, name),
        None => true,
    }
}

/// The physical interface set: the device-backed names, in their original
/// order, restricted to those that pass the configured filters.
pub open spec fn physical_of(names: Seq<String>, config: SysInfoConfig) -> Seq<String> {
    names.filter(|s: String| passes_filter(config, s@))
}

/// Whether `name` occurs in `names`, decided by string comparison.
pub fn vec_contains_name(names: &Vec<String>, name: &String) -> (r: bool)
    ensures
        r == name_in(names@, name@),
{
    let mut i: usize = 0;
    while i < names.len()
        invariant
            i <= names@.len(),
            forall|j: int| 0 <= j < i ==> names@[j]@ != name@,
        decreases names@.len() - i,
    {
        if names[i] == *name {
            return true;
        }
        i = i + 1;
    }
    false
}

/// Whether an interface called `name` passes the configured filters.
pub fn interface_passes(config: &SysInfoConfig, name: &String) -> (r: bool)
    ensures
        r == passes_filter(*config, name@),
{
    let included = match &config.include_interfaces {
        Some(inc) => vec_contains_name(inc, name),
        None => true,
    };
    if !included {
        return false;
    }
    match &config.exclude_interfaces {
        Some(exc) => !vec_contains_name(exc, name),
        None => true,
    }
}

/// The classifier proper: restrict the device-backed interface names to
/// those the configuration lets pass, keeping their order.
pub fn get_physical_interfaces(device_backed: &Vec<String>, config: &SysInfoConfig) -> (r: Vec<
    String,
>)
    ensures
        r@ == physical_of(device_backed@, *config),
{
    let mut out: Vec<String> = Vec::new();
    let mut i: usize = 0;
    proof {
        reveal(Seq::filter);
        assert(device_backed@.take(0) =~= Seq::<String>::empty());
    }
    while i < device_backed.len()
        invariant
            i <= device_backed@.len(),
            out@ == device_backed@.take(i as int).filter(
                |s: String| passes_filter(*config, s@),
            ),
        decreases device_backed@.len() - i,
    {
        let name = &device_backed[i];
        proof {
            reveal(Seq::filter);
            assert(device_backed@.take(i + 1).drop_last() =~= device_backed@.take(i as int));
            assert(device_backed@.take(i + 1).last() == device_backed@[i as int]);
        }
        if interface_passes(config, name) {
            out.push(name.clone());
        }
        i = i + 1;
    }
    proof {
        assert(device_backed@.take(device_backed@.len() as int) =~= device_backed@);
    }
    out
}

/// Exclusion wins over inclusion: an interface named by the exclude list
/// never passes the filter, whatever the include list says of it.
pub proof fn lemma_exclude_overrides_include(config: SysInfoConfig, name: Seq<char>)
    requires
        config.exclude_interfaces matches Some(exc) && name_in(exc@, name),
    ensures
        !passes_filter(config, name),
{
}

/// A sequence whose every element passes the filter is left whole by the
/// classifier.
proof fn lemma_filter_all_pass(names: Seq<String>, config: SysInfoConfig)
    requires
        forall|i: int| 0 <= i < names.len() ==> passes_filter(config, names[i]@),
    ensures
        physical_of(names, config) == names,
    decreases names.len(),
{
    reveal(Seq::filter);
    if names.len() > 0 {
        lemma_filter_all_pass(names.drop_last(), config);
        assert(physical_of(names, config) =~= names);
    }
}

/// Classification is idempotent: re-classifying a physical interface set
/// that an earlier classification produced, under the same configuration,
/// yields the identical set. This is the guarantee behind re-scanning: a
/// second scan that sees the same operating-system state changes nothing.
pub proof fn lemma_classify_idempotent(names: Seq<String>, config: SysInfoConfig)
    ensures
        physical_of(physical_of(names, config), config) == physical_of(names, config),
{
    let once = physical_of(names, config);
    let pred = |s: String| passes_filter(config, s@);
    assert forall|i: int| 0 <= i < once.len() implies passes_filter(config, once[i]@) by {
        names.lemma_filter_pred(pred, i);
    }
    lemma_filter_all_pass(once, config);
}

/// When everything the include list permits, the exclude list removes, no
/// interface passes and the physical set is empty — exclusion is applied
/// after inclusion.
pub proof fn lemma_include_exclude_cancel(names: Seq<String>, config: SysInfoConfig)
    requires
        config.include_interfaces matches Some(inc) && config.exclude_interfaces matches Some(exc)
            && (forall|n: Seq<char>| #[trigger] name_in(inc@, n) ==> name_in(exc@, n)),
    ensures
        physical_of(names, config) == Seq::<String>::empty(),
    decreases names.len(),
{
    reveal(Seq::filter);
    if names.len() == 0 {
        assert(physical_of(names, config) =~= Seq::<String>::empty());
    } else {
        lemma_include_exclude_cancel(names.drop_last(), config);
        assert(!passes_filter(config, names.last()@));
        assert(physical_of(names, config) =~= Seq::<String>::empty());
    }
}

} // verus!
