//! What requests, reports, page counts and sizes come to.
//!
//! A law about a call takes the call's arguments and its result as inputs, tied
//! together by `call_ensures`: it holds of everything that the call can return.
//! The laws speak of fields, elements and numbers alone.
use vstd::prelude::*;

use crate::policy::{
    ForkPolicy,
    ForkProtectionRequest,
    ProtectionReport,
    ProtectionRequest,
    ProtectionState,
    Requirement,
    TargetOs,
};
use crate::setup::{Layout, NativeOutcomes, Outcome, OwnerKind};

verus! {

/// A report satisfies a request exactly if every control that the request asks
/// for, required or only preferred, is established in the report, and a fork
/// policy that is asked for is the reported one. Report and request may be any
/// two: the report need not have been made for the request.
pub proof fn law_satisfied_means_established(
    report: ProtectionReport,
    request: ProtectionRequest,
    r: bool,
)
    requires
        call_ensures(ProtectionReport::satisfies, (&report, request), r),
    ensures
        r == report.covers(request),
        r && request.memory_lock != Requirement::NotRequested ==> report.memory_lock
            == ProtectionState::Established,
        r && request.dump_exclusion != Requirement::NotRequested ==> report.dump_exclusion
            == ProtectionState::Established,
        r && request.fork.requirement != Requirement::NotRequested ==> report.fork.state
            == ProtectionState::Established && report.fork.policy == request.fork.policy,
        r && request.guard_pages != Requirement::NotRequested ==> report.guard_pages
            == ProtectionState::Established,
        r && request.canary != Requirement::NotRequested ==> report.canary
            == ProtectionState::Established,
        r && request.cache_policy != Requirement::NotRequested ==> report.cache_policy
            == ProtectionState::Established,
        !r ==> {
            ||| request.memory_lock != Requirement::NotRequested && report.memory_lock
                != ProtectionState::Established
            ||| request.dump_exclusion != Requirement::NotRequested && report.dump_exclusion
                != ProtectionState::Established
            ||| request.fork.requirement != Requirement::NotRequested && (report.fork.state
                != ProtectionState::Established || report.fork.policy != request.fork.policy)
            ||| request.guard_pages != Requirement::NotRequested && report.guard_pages
                != ProtectionState::Established
            ||| request.canary != Requirement::NotRequested && report.canary
                != ProtectionState::Established
            ||| request.cache_policy != Requirement::NotRequested && report.cache_policy
                != ProtectionState::Established
        },
{
}

/// A report that covers a request has every control of it in force, required
/// or preferred: one that is asked for and not established is enough to spoil
/// it, whatever else the report says.
pub proof fn law_unmet_control_is_not_covered(report: ProtectionReport, request: ProtectionRequest)
    ensures
        request.memory_lock != Requirement::NotRequested && report.memory_lock
            != ProtectionState::Established ==> !report.covers(request),
        request.dump_exclusion != Requirement::NotRequested && report.dump_exclusion
            != ProtectionState::Established ==> !report.covers(request),
        request.fork.requirement != Requirement::NotRequested && report.fork.state
            != ProtectionState::Established ==> !report.covers(request),
        request.fork.requirement != Requirement::NotRequested && report.fork.policy
            != request.fork.policy ==> !report.covers(request),
        request.guard_pages != Requirement::NotRequested && report.guard_pages
            != ProtectionState::Established ==> !report.covers(request),
        request.canary != Requirement::NotRequested && report.canary
            != ProtectionState::Established ==> !report.covers(request),
        request.cache_policy != Requirement::NotRequested && report.cache_policy
            != ProtectionState::Established ==> !report.covers(request),
{
}

/// Whether a control is preferred or required makes no difference to a report,
/// and neither do the mapping, the sizes, or a control that nobody asks for.
pub proof fn law_satisfying_ignores_strength_and_size(
    report: ProtectionReport,
    other: ProtectionReport,
    strong: ProtectionRequest,
    weak: ProtectionRequest,
    r: bool,
    s: bool,
)
    requires
        call_ensures(ProtectionReport::satisfies, (&report, strong), r),
        call_ensures(ProtectionReport::satisfies, (&other, weak), s),
        strong.memory_lock == Requirement::NotRequested <==> weak.memory_lock
            == Requirement::NotRequested,
        strong.dump_exclusion == Requirement::NotRequested <==> weak.dump_exclusion
            == Requirement::NotRequested,
        strong.fork.requirement == Requirement::NotRequested <==> weak.fork.requirement
            == Requirement::NotRequested,
        strong.guard_pages == Requirement::NotRequested <==> weak.guard_pages
            == Requirement::NotRequested,
        strong.canary == Requirement::NotRequested <==> weak.canary == Requirement::NotRequested,
        strong.cache_policy == Requirement::NotRequested <==> weak.cache_policy
            == Requirement::NotRequested,
        strong.fork.policy == weak.fork.policy,
        weak.memory_lock != Requirement::NotRequested ==> report.memory_lock == other.memory_lock,
        weak.dump_exclusion != Requirement::NotRequested ==> report.dump_exclusion
            == other.dump_exclusion,
        weak.fork.requirement != Requirement::NotRequested ==> report.fork == other.fork,
        weak.guard_pages != Requirement::NotRequested ==> report.guard_pages == other.guard_pages,
        weak.canary != Requirement::NotRequested ==> report.canary == other.canary,
        weak.cache_policy != Requirement::NotRequested ==> report.cache_policy
            == other.cache_policy,
    ensures
        r == s,
{
}

/// The strict request requires the lock, the canary and the exclusion from
/// forks everywhere, the guard pages of a guarded owner and of no other, and
/// the exclusion from dumps on every system but macOS, where it is preferred.
/// It asks for no cache policy.
pub proof fn law_strict_request_fields(guarded: bool, os: TargetOs, r: ProtectionRequest)
    requires
        call_ensures(crate::policy::request, (guarded, os), r),
    ensures
        r.memory_lock == Requirement::Required,
        r.canary == Requirement::Required,
        r.fork.policy == ForkPolicy::Exclude,
        r.fork.requirement == Requirement::Required,
        r.cache_policy == Requirement::NotRequested,
        guarded ==> r.guard_pages == Requirement::Required,
        !guarded ==> r.guard_pages == Requirement::NotRequested,
        os == TargetOs::MacOs ==> r.dump_exclusion == Requirement::Preferred,
        os != TargetOs::MacOs ==> r.dump_exclusion == Requirement::Required,
        r == crate::policy::strict_request(guarded, os),
{
}

/// A request to exclude the pages from forks is one, and as strong as asked.
pub proof fn law_exclusion_keeps_its_strength(requirement: Requirement, r: ForkProtectionRequest)
    requires
        call_ensures(ForkProtectionRequest::exclude, (requirement,), r),
    ensures
        r.policy == ForkPolicy::Exclude,
        r.requirement == requirement,
{
}

/// Nothing but an answer that the control was applied makes it established, and
/// the native error of a refusal is kept.
pub proof fn law_answers_are_not_improved(outcome: Outcome, r: ProtectionState)
    requires
        call_ensures(Outcome::to_state, (outcome,), r),
    ensures
        r == ProtectionState::Established <==> outcome == Outcome::Applied,
        r == ProtectionState::Unsupported <==> outcome == Outcome::Unsupported,
        forall|code: i32|
            r == (ProtectionState::Failed { errno: Some(code) }) <==> outcome == Outcome::Refused(
                code,
            ),
        r != ProtectionState::NotRequested,
        r != ProtectionState::NotAttempted,
        r == outcome.state(),
{
}

/// A system that grants all that it has applies every control, save that no
/// system has a cache policy, and macOS has no dump exclusion.
pub proof fn law_granting_system_answers(
    os: TargetOs,
    page: usize,
    base: usize,
    r: NativeOutcomes,
)
    requires
        call_ensures(NativeOutcomes::granted, (os, page, base), r),
    ensures
        r.page == page,
        r.base == base,
        r.canary == Outcome::Applied,
        r.mapping == Outcome::Applied,
        r.guard_pages == Outcome::Applied,
        r.fork == Outcome::Applied,
        r.memory_lock == Outcome::Applied,
        r.cache_policy == Outcome::Unsupported,
        os == TargetOs::MacOs ==> r.dump_exclusion == Outcome::Unsupported,
        os != TargetOs::MacOs ==> r.dump_exclusion == Outcome::Applied,
        r.unlock,
        r.unmap,
        r == NativeOutcomes::granting(os, page, base),
{
}

/// The pages counted hold the bytes, and one page less would not.
pub proof fn law_page_count_is_tight(len: usize, page: usize, r: usize)
    requires
        page > 0,
        call_ensures(crate::pages::pages_for, (len, page), r),
    ensures
        r * page >= len,
        r > 0 ==> (r - 1) * page < len,
{
    crate::pages::lemma_page_count(len as nat, page as nat, r as nat);
    if r > 0 {
        crate::pages::lemma_page_count(len as nat, page as nat, (r - 1) as nat);
    }
}

/// The start of a page is a multiple of the page size, and the address lies
/// less than a page behind it.
pub proof fn law_page_start_is_aligned(address: usize, page: usize, r: usize)
    requires
        page > 0,
        call_ensures(crate::pages::page_start, (address, page), r),
    ensures
        r as int % page as int == 0,
        r <= address,
        address - r < page,
{
}

/// Two addresses share a page start exactly if no page border parts them.
pub proof fn law_page_start_is_shared_within_a_page(
    a: usize,
    b: usize,
    page: usize,
    r: usize,
    s: usize,
)
    requires
        page > 0,
        call_ensures(crate::pages::page_start, (a, page), r),
        call_ensures(crate::pages::page_start, (b, page), s),
    ensures
        r == s <==> a as int / page as int == b as int / page as int,
{
    let p = page as int;
    vstd::arithmetic::div_mod::lemma_fundamental_div_mod(r as int, p);
    vstd::arithmetic::div_mod::lemma_fundamental_div_mod(s as int, p);
    let i = r as int / p;
    let j = s as int / p;
    assert(a == i * p + (a - r)) by (nonlinear_arith)
        requires
            r == p * i + 0,
    ;
    assert(b == j * p + (b - s)) by (nonlinear_arith)
        requires
            s == p * j + 0,
    ;
    vstd::arithmetic::div_mod::lemma_fundamental_div_mod_converse(a as int, p, i, a - r);
    vstd::arithmetic::div_mod::lemma_fundamental_div_mod_converse(b as int, p, j, b - s);
}

/// Whole pages that hold the capacity, with less than a page to spare, are the
/// data pages.
pub proof fn lemma_rounded(capacity: usize, page: usize, rounded: nat)
    requires
        page > 0,
        rounded as int % page as int == 0,
        capacity <= rounded < capacity + page,
    ensures
        rounded == crate::setup::data_bytes(capacity as nat, page as nat),
{
    let p = page as int;
    let k = rounded as int / p;
    vstd::arithmetic::div_mod::lemma_fundamental_div_mod(rounded as int, p);
    assert(rounded == k * p) by (nonlinear_arith)
        requires
            rounded == p * k + 0,
    ;
    assert(k >= 0) by (nonlinear_arith)
        requires
            rounded == k * p,
            rounded >= 0,
            p > 0,
    ;
    crate::pages::lemma_page_count(capacity as nat, page as nat, k as nat);
    if k > 0 {
        assert((k - 1) * p == k * p - p) by (nonlinear_arith);
        crate::pages::lemma_page_count(capacity as nat, page as nat, (k - 1) as nat);
    }
    assert(crate::pages::page_count(capacity as nat, page as nat) == k);
}

/// A layout has the fewest whole data pages that hold the capacity, and two more
/// pages in all for a guarded owner. There is one unless the mapping would be
/// larger than an object can be. `rounded` is the capacity in whole pages.
pub proof fn law_layout_is_tight(
    kind: OwnerKind,
    capacity: usize,
    page: usize,
    rounded: nat,
    r: Option<Layout>,
)
    requires
        page > 0,
        rounded as int % page as int == 0,
        capacity <= rounded < capacity + page,
        call_ensures(crate::setup::layout, (kind, capacity, page), r),
    ensures
        r matches Some(sizes) ==> sizes.data_bytes == rounded,
        kind == OwnerKind::Guarded ==> (r is Some <==> rounded + 2 * page <= isize::MAX) && (
        r matches Some(sizes) ==> sizes.mapped_bytes == rounded + 2 * page),
        kind == OwnerKind::Locked ==> (r is Some <==> rounded <= isize::MAX) && (
        r matches Some(sizes) ==> sizes.mapped_bytes == rounded),
{
    lemma_rounded(capacity, page, rounded);
}

/// Any page size will do, and any number of bytes.
pub proof fn law_any_page_size_will_do(kind: OwnerKind, len: usize, page: usize)
    requires
        page > 0,
    ensures
        call_requires(crate::pages::pages_for, (len, page)),
        call_requires(crate::pages::page_start, (len, page)),
        call_requires(crate::setup::layout, (kind, len, page)),
{
}

/// Wiping zeroes every byte and keeps the length.
pub proof fn law_wiping_spares_no_byte(pages: &mut [u8], r: ())
    requires
        call_ensures(crate::mapped::wipe, (pages,), r),
    ensures
        final(pages)@.len() == old(pages)@.len(),
        forall|i: int| 0 <= i < old(pages)@.len() ==> final(pages)@[i] == 0,
{
}

} // verus!
