//! The linked image's build configuration: which unit owns the entry point
//! and which owns the fault handler. Exactly one of each may be linked into
//! an image; a configuration that activates two, or none, is rejected at
//! build time rather than resolved silently by link order.

use vstd::prelude::*;

verus! {

/// What one compiled unit of the image contributes: whether it defines the
/// loader-visible entry point, and whether it installs the fault handler.
#[derive(Clone, Copy, PartialEq, Eq, Structural, Debug)]
pub struct UnitDescriptor {
    pub provides_entry_point: bool,
    pub provides_fault_handler: bool,
}

/// A build-time rejection of the image configuration.
#[derive(Clone, Copy, PartialEq, Eq, Structural, Debug)]
pub enum LinkError {
    NoEntryPoint,
    MultipleEntryPoints,
    NoFaultHandler,
    MultipleFaultHandlers,
}

/// How many units of the configuration define the entry point.
pub open spec fn count_entry_points(units: Seq<UnitDescriptor>) -> nat
    decreases units.len(),
{
    if units.len() == 0 {
        0
    } else {
        count_entry_points(units.drop_last()) + if units.last().provides_entry_point {
            1nat
        } else {
            0nat
        }
    }
}

/// How many units of the configuration install the fault handler.
pub open spec fn count_fault_handlers(units: Seq<UnitDescriptor>) -> nat
    decreases units.len(),
{
    if units.len() == 0 {
        0
    } else {
        count_fault_handlers(units.drop_last()) + if units.last().provides_fault_handler {
            1nat
        } else {
            0nat
        }
    }
}

/// The single-owner rule on an image configuration: accepted exactly when
/// one unit defines the entry point and one installs the fault handler.
/// Entry-point faults are reported before fault-handler faults, and a
/// missing definition before a duplicated one.
pub open spec fn validate_image_spec(units: Seq<UnitDescriptor>) -> Result<(), LinkError> {
    if count_entry_points(units) == 0 {
        Err(LinkError::NoEntryPoint)
    } else if count_entry_points(units) > 1 {
        Err(LinkError::MultipleEntryPoints)
    } else if count_fault_handlers(units) == 0 {
        Err(LinkError::NoFaultHandler)
    } else if count_fault_handlers(units) > 1 {
        Err(LinkError::MultipleFaultHandlers)
    } else {
        Ok(())
    }
}

/// Check an image configuration against the single-owner rule: the result is
/// `Ok` exactly when one unit defines the entry point and exactly one unit
/// installs the fault handler, and otherwise names the first rule broken.
pub fn validate_image(units: &Vec<UnitDescriptor>) -> (r: Result<(), LinkError>)
    ensures
        r == validate_image_spec(units@),
        r is Ok <==> (count_entry_points(units@) == 1 && count_fault_handlers(units@) == 1),
{
    let mut entries: usize = 0;
    let mut handlers: usize = 0;
    let mut j: usize = 0;
    while j < units.len()
        invariant
            j <= units@.len(),
            entries <= j,
            handlers <= j,
            entries == count_entry_points(units@.take(j as int)),
            handlers == count_fault_handlers(units@.take(j as int)),
        decreases units@.len() - j,
    {
        proof {
            assert(units@.take(j + 1).drop_last() =~= units@.take(j as int));
            assert(units@.take(j + 1).last() == units@[j as int]);
        }
        if units[j].provides_entry_point {
            entries += 1;
        }
        if units[j].provides_fault_handler {
            handlers += 1;
        }
        j += 1;
    }
    proof {
        assert(units@.take(units@.len() as int) =~= units@);
    }
    if entries == 0 {
        Err(LinkError::NoEntryPoint)
    } else if entries > 1 {
        Err(LinkError::MultipleEntryPoints)
    } else if handlers == 0 {
        Err(LinkError::NoFaultHandler)
    } else if handlers > 1 {
        Err(LinkError::MultipleFaultHandlers)
    } else {
        Ok(())
    }
}

/// A unit that installs the fault handler contributes to the count: a
/// configuration with such a unit has at least one handler.
proof fn lemma_handler_at_index(units: Seq<UnitDescriptor>, i: int)
    requires
        0 <= i < units.len(),
        units[i].provides_fault_handler,
    ensures
        count_fault_handlers(units) >= 1,
    decreases units.len(),
{
    if i == units.len() - 1 {
    } else {
        lemma_handler_at_index(units.drop_last(), i);
    }
}

/// Exactly one fault handler may be linked into an image: a configuration in
/// which two units each install one — whichever two units those are — is
/// rejected, never resolved silently.
pub proof fn lemma_two_fault_handlers_rejected(units: Seq<UnitDescriptor>, i: int, j: int)
    requires
        0 <= i < j < units.len(),
        units[i].provides_fault_handler,
        units[j].provides_fault_handler,
    ensures
        count_fault_handlers(units) >= 2,
        validate_image_spec(units) is Err,
    decreases units.len(),
{
    if j == units.len() - 1 {
        lemma_handler_at_index(units.drop_last(), i);
    } else {
        lemma_two_fault_handlers_rejected(units.drop_last(), i, j);
    }
}

/// The same single-owner rule holds of the entry point: a configuration in
/// which two units each define one is rejected.
proof fn lemma_entry_at_index(units: Seq<UnitDescriptor>, i: int)
    requires
        0 <= i < units.len(),
        units[i].provides_entry_point,
    ensures
        count_entry_points(units) >= 1,
    decreases units.len(),
{
    if i == units.len() - 1 {
    } else {
        lemma_entry_at_index(units.drop_last(), i);
    }
}

/// Exactly one entry point may be linked into an image: a configuration in
/// which two units each define one is rejected at build time.
pub proof fn lemma_two_entry_points_rejected(units: Seq<UnitDescriptor>, i: int, j: int)
    requires
        0 <= i < j < units.len(),
        units[i].provides_entry_point,
        units[j].provides_entry_point,
    ensures
        count_entry_points(units) >= 2,
        validate_image_spec(units) is Err,
    decreases units.len(),
{
    if j == units.len() - 1 {
        lemma_entry_at_index(units.drop_last(), i);
    } else {
        lemma_two_entry_points_rejected(units.drop_last(), i, j);
    }
}

} // verus!
