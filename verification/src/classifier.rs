//! Who made the processor, and whether it belongs to the AMD Zen family.
//!
//! The vendor string decides between the two ways of asking for the caches.
//! Only for the vendor `AuthenticAMD` do the family fields matter, so only for
//! that vendor are they read.

use crate::provider::Provider;
use crate::report::{CpuReportView, FamilyInfo};
use vstd::prelude::*;

verus! {

/// The vendor of a processor and, for a vendor whose processors differ in how
/// they report their caches, the family fields of its signature.
#[derive(Clone, Debug)]
pub struct VendorIdentity {
    /// The vendor string.
    pub vendor: String,
    /// The family fields, where they were read and offered.
    pub family: Option<FamilyInfo>,
}

/// The mathematical content of a [`VendorIdentity`].
pub struct VendorIdentityView {
    pub vendor: Seq<char>,
    pub family: Option<FamilyInfo>,
}

impl View for VendorIdentity {
    type V = VendorIdentityView;

    open spec fn view(&self) -> VendorIdentityView {
        VendorIdentityView { vendor: self.vendor@, family: self.family }
    }
}

/// The content of an optional identity.
pub open spec fn identity_view(identity: Option<VendorIdentity>) -> Option<VendorIdentityView> {
    match identity {
        Some(id) => Some(id@),
        None => None,
    }
}

/// The vendor string of AMD.
pub open spec fn amd_vendor() -> Seq<char> {
    "AuthenticAMD"@
}

impl FamilyInfo {
    /// Whether the family fields are those of a Zen generation: base family
    /// `0xF`, extended family from `0x8` to `0xA`.
    pub open spec fn is_zen_generation(self) -> bool {
        self.base_family == 0xF && 0x8 <= self.extended_family <= 0xA
    }
}

impl VendorIdentityView {
    /// Whether this is a processor of the AMD Zen family: the vendor is
    /// exactly AMD's, and the family fields are there and of a Zen generation.
    pub open spec fn is_amd_zen_family(self) -> bool {
        &&& self.vendor == amd_vendor()
        &&& self.family matches Some(family)
        &&& family.is_zen_generation()
    }
}

/// The identity that a report gives: none without a vendor string; the family
/// fields only under AMD's vendor string.
pub open spec fn spec_classify(report: CpuReportView) -> Option<VendorIdentityView> {
    match report.vendor {
        Some(vendor) => Some(
            VendorIdentityView {
                vendor,
                family: if vendor == amd_vendor() {
                    report.family
                } else {
                    None
                },
            },
        ),
        None => None,
    }
}

/// Whether `vendor` is AMD's vendor string.
pub fn is_amd_vendor(vendor: &String) -> (b: bool)
    ensures
        b == (vendor@ == amd_vendor()),
{
    let amd = "AuthenticAMD".to_owned();
    *vendor == amd
}

/// Whether family fields are those of a Zen generation; `None` where there
/// are no family fields to judge.
pub fn amd_is_zen(family: Option<FamilyInfo>) -> (r: Option<bool>)
    ensures
        r == match family {
            Some(f) => Some(f.is_zen_generation()),
            None => None,
        },
{
    match family {
        Some(f) => Some(f.base_family == 0xF && 0x8 <= f.extended_family && f.extended_family <= 0xA),
        None => None,
    }
}

impl VendorIdentity {
    /// Whether this is a processor of the AMD Zen family, the one switch
    /// between the two strategies.
    pub fn is_amd_zen_family(&self) -> (b: bool)
        ensures
            b == self@.is_amd_zen_family(),
    {
        is_amd_vendor(&self.vendor) && amd_is_zen(self.family).unwrap_or(false)
    }
}

/// A report that holds a vendor string and family fields, and nothing else.
pub open spec fn signature(vendor: Option<Seq<char>>, family: Option<FamilyInfo>) -> CpuReportView {
    CpuReportView { vendor, family, cache_parameters: None, l1_cache: None, l2_l3_cache: None }
}

/// Reads the identity of the processor behind `provider`: `None` where it
/// reports no vendor string. The family fields are read only under AMD's
/// vendor string.
///
/// The answer is the identity that a report of `provider` gives.
pub fn classify(provider: &Provider) -> (r: Option<VendorIdentity>)
    ensures
        exists|report: CpuReportView| #[trigger]
            provider.may_report(report) && identity_view(r) == spec_classify(report),
        provider.report() matches Some(report) ==> identity_view(r) == spec_classify(report),
        provider is Unsupported ==> r is None,
{
    let ghost mut read = CpuReportView::absent();
    let r = match provider.vendor() {
        Some(vendor) => {
            let family = if is_amd_vendor(&vendor) {
                provider.family()
            } else {
                None
            };
            proof {
                read = signature(Some(vendor@), family);
            }
            Some(VendorIdentity { vendor, family })
        },
        None => None,
    };
    assert(provider.may_report(provider.report_or(read)));
    r
}

} // verus!
