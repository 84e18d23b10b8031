//! The host information snapshot: probing is out of scope, so the snapshot
//! is consumed opaquely, read out of its element form and written back.

use vstd::prelude::*;
use crate::element::{Content, Element, spec_bool_el, spec_int_el, spec_text_el};
use crate::errors::Error;

verus! {

/// What is known about this host. Processor rates are in operations per
/// second, memory and disk sizes in bytes.
#[derive(Debug)]
pub struct HostInfo {
    pub tz_shift: i64,
    pub domain_name: String,
    pub serialnum: String,
    pub ip_addr: String,
    pub host_cpid: String,
    pub p_ncpus: i64,
    pub p_vendor: String,
    pub p_model: String,
    pub p_features: String,
    pub p_fpops: i64,
    pub p_iops: i64,
    pub p_membw: i64,
    pub p_calculated: i64,
    pub p_vm_extensions_disabled: bool,
    pub m_nbytes: i64,
    pub m_cache: i64,
    pub m_swap: i64,
    pub d_total: i64,
    pub d_free: i64,
    pub d_boinc: i64,
    pub d_allowed: i64,
    pub os_name: String,
    pub os_version: String,
    pub product_name: String,
    pub mac_address: String,
}

/// Every field of `h` is zero, empty, or false.
pub open spec fn spec_host_info_default(h: HostInfo) -> bool {
    &&& h.tz_shift == 0
    &&& h.domain_name@ == Seq::<char>::empty()
    &&& h.serialnum@ == Seq::<char>::empty()
    &&& h.ip_addr@ == Seq::<char>::empty()
    &&& h.host_cpid@ == Seq::<char>::empty()
    &&& h.p_ncpus == 0
    &&& h.p_vendor@ == Seq::<char>::empty()
    &&& h.p_model@ == Seq::<char>::empty()
    &&& h.p_features@ == Seq::<char>::empty()
    &&& h.p_fpops == 0
    &&& h.p_iops == 0
    &&& h.p_membw == 0
    &&& h.p_calculated == 0
    &&& !h.p_vm_extensions_disabled
    &&& h.m_nbytes == 0
    &&& h.m_cache == 0
    &&& h.m_swap == 0
    &&& h.d_total == 0
    &&& h.d_free == 0
    &&& h.d_boinc == 0
    &&& h.d_allowed == 0
    &&& h.os_name@ == Seq::<char>::empty()
    &&& h.os_version@ == Seq::<char>::empty()
    &&& h.product_name@ == Seq::<char>::empty()
    &&& h.mac_address@ == Seq::<char>::empty()
}

impl Default for HostInfo {
    /// A snapshot with every field zero, empty, or false.
    fn default() -> (r: Self)
        ensures
            spec_host_info_default(r),
    {
        HostInfo {
            tz_shift: 0,
            domain_name: String::new(),
            serialnum: String::new(),
            ip_addr: String::new(),
            host_cpid: String::new(),
            p_ncpus: 0,
            p_vendor: String::new(),
            p_model: String::new(),
            p_features: String::new(),
            p_fpops: 0,
            p_iops: 0,
            p_membw: 0,
            p_calculated: 0,
            p_vm_extensions_disabled: false,
            m_nbytes: 0,
            m_cache: 0,
            m_swap: 0,
            d_total: 0,
            d_free: 0,
            d_boinc: 0,
            d_allowed: 0,
            os_name: String::new(),
            os_version: String::new(),
            product_name: String::new(),
            mac_address: String::new(),
        }
    }
}

/// One step of reading a host-info element: the child's name picks the
/// field, its content the value; unrecognized names and mismatched content
/// change nothing. The element name `timezone` feeds the `tz_shift` field.
pub open spec fn spec_apply_host_child(h: HostInfo, e: Element) -> HostInfo {
    if e.name@ == "timezone"@ {
        match e.content {
            Content::Int(v) => HostInfo { tz_shift: v, ..h },
            _ => h,
        }
    } else if e.name@ == "domain_name"@ {
        match e.content {
            Content::Text(v) => HostInfo { domain_name: v, ..h },
            _ => h,
        }
    } else if e.name@ == "serialnum"@ {
        match e.content {
            Content::Text(v) => HostInfo { serialnum: v, ..h },
            _ => h,
        }
    } else if e.name@ == "ip_addr"@ {
        match e.content {
            Content::Text(v) => HostInfo { ip_addr: v, ..h },
            _ => h,
        }
    } else if e.name@ == "host_cpid"@ {
        match e.content {
            Content::Text(v) => HostInfo { host_cpid: v, ..h },
            _ => h,
        }
    } else if e.name@ == "p_ncpus"@ {
        match e.content {
            Content::Int(v) => HostInfo { p_ncpus: v, ..h },
            _ => h,
        }
    } else if e.name@ == "p_vendor"@ {
        match e.content {
            Content::Text(v) => HostInfo { p_vendor: v, ..h },
            _ => h,
        }
    } else if e.name@ == "p_model"@ {
        match e.content {
            Content::Text(v) => HostInfo { p_model: v, ..h },
            _ => h,
        }
    } else if e.name@ == "p_features"@ {
        match e.content {
            Content::Text(v) => HostInfo { p_features: v, ..h },
            _ => h,
        }
    } else if e.name@ == "p_fpops"@ {
        match e.content {
            Content::Int(v) => HostInfo { p_fpops: v, ..h },
            _ => h,
        }
    } else if e.name@ == "p_iops"@ {
        match e.content {
            Content::Int(v) => HostInfo { p_iops: v, ..h },
            _ => h,
        }
    } else if e.name@ == "p_membw"@ {
        match e.content {
            Content::Int(v) => HostInfo { p_membw: v, ..h },
            _ => h,
        }
    } else if e.name@ == "p_calculated"@ {
        match e.content {
            Content::Int(v) => HostInfo { p_calculated: v, ..h },
            _ => h,
        }
    } else if e.name@ == "p_vm_extensions_disabled"@ {
        match e.content {
            Content::Bool(v) => HostInfo { p_vm_extensions_disabled: v, ..h },
            _ => h,
        }
    } else if e.name@ == "m_nbytes"@ {
        match e.content {
            Content::Int(v) => HostInfo { m_nbytes: v, ..h },
            _ => h,
        }
    } else if e.name@ == "m_cache"@ {
        match e.content {
            Content::Int(v) => HostInfo { m_cache: v, ..h },
            _ => h,
        }
    } else if e.name@ == "m_swap"@ {
        match e.content {
            Content::Int(v) => HostInfo { m_swap: v, ..h },
            _ => h,
        }
    } else if e.name@ == "d_total"@ {
        match e.content {
            Content::Int(v) => HostInfo { d_total: v, ..h },
            _ => h,
        }
    } else if e.name@ == "d_free"@ {
        match e.content {
            Content::Int(v) => HostInfo { d_free: v, ..h },
            _ => h,
        }
    } else if e.name@ == "os_name"@ {
        match e.content {
            Content::Text(v) => HostInfo { os_name: v, ..h },
            _ => h,
        }
    } else if e.name@ == "os_version"@ {
        match e.content {
            Content::Text(v) => HostInfo { os_version: v, ..h },
            _ => h,
        }
    } else if e.name@ == "product_name"@ {
        match e.content {
            Content::Text(v) => HostInfo { product_name: v, ..h },
            _ => h,
        }
    } else if e.name@ == "mac_address"@ {
        match e.content {
            Content::Text(v) => HostInfo { mac_address: v, ..h },
            _ => h,
        }
    } else {
        h
    }
}

/// Reading a list of host-info children left to right, later occurrences of
/// a name overriding earlier ones.
pub open spec fn spec_host_fold(h: HostInfo, s: Seq<Element>) -> HostInfo
    decreases s.len(),
{
    if s.len() == 0 {
        h
    } else {
        spec_host_fold(spec_apply_host_child(h, s[0]), s.drop_first())
    }
}

/// Folding one more child equals folding the prefix, then applying the
/// child.
proof fn lemma_host_fold_push(h: HostInfo, s: Seq<Element>, e: Element)
    ensures
        spec_host_fold(h, s.push(e)) == spec_apply_host_child(spec_host_fold(h, s), e),
    decreases s.len(),
{
    if s.len() == 0 {
        assert(s.push(e)[0] == e);
        assert(s.push(e).drop_first() =~= Seq::<Element>::empty());
        assert(spec_host_fold(h, s.push(e)) == spec_host_fold(
            spec_apply_host_child(h, e),
            Seq::<Element>::empty(),
        ));
        assert(spec_host_fold(h, s) == h);
    } else {
        assert(s.push(e)[0] == s[0]);
        assert(s.push(e).drop_first() =~= s.drop_first().push(e));
        lemma_host_fold_push(spec_apply_host_child(h, s[0]), s.drop_first(), e);
        assert(spec_host_fold(h, s.push(e)) == spec_host_fold(
            spec_apply_host_child(h, s[0]),
            s.drop_first().push(e),
        ));
        assert(spec_host_fold(h, s) == spec_host_fold(
            spec_apply_host_child(h, s[0]),
            s.drop_first(),
        ));
    }
}

/// Applies one host-info child to the snapshot, exactly as
/// `spec_apply_host_child` says.
fn apply_host_child(v: &mut HostInfo, e: &Element)
    ensures
        *final(v) == spec_apply_host_child(*old(v), *e),
{
    let name = e.name.as_str();
    if crate::outside::str_eq(name, "timezone") {
        if let Content::Int(x) = &e.content {
            v.tz_shift = *x;
        }
    } else if crate::outside::str_eq(name, "domain_name") {
        if let Content::Text(x) = &e.content {
            v.domain_name = x.clone();
        }
    } else if crate::outside::str_eq(name, "serialnum") {
        if let Content::Text(x) = &e.content {
            v.serialnum = x.clone();
        }
    } else if crate::outside::str_eq(name, "ip_addr") {
        if let Content::Text(x) = &e.content {
            v.ip_addr = x.clone();
        }
    } else if crate::outside::str_eq(name, "host_cpid") {
        if let Content::Text(x) = &e.content {
            v.host_cpid = x.clone();
        }
    } else if crate::outside::str_eq(name, "p_ncpus") {
        if let Content::Int(x) = &e.content {
            v.p_ncpus = *x;
        }
    } else if crate::outside::str_eq(name, "p_vendor") {
        if let Content::Text(x) = &e.content {
            v.p_vendor = x.clone();
        }
    } else if crate::outside::str_eq(name, "p_model") {
        if let Content::Text(x) = &e.content {
            v.p_model = x.clone();
        }
    } else if crate::outside::str_eq(name, "p_features") {
        if let Content::Text(x) = &e.content {
            v.p_features = x.clone();
        }
    } else if crate::outside::str_eq(name, "p_fpops") {
        if let Content::Int(x) = &e.content {
            v.p_fpops = *x;
        }
    } else if crate::outside::str_eq(name, "p_iops") {
        if let Content::Int(x) = &e.content {
            v.p_iops = *x;
        }
    } else if crate::outside::str_eq(name, "p_membw") {
        if let Content::Int(x) = &e.content {
            v.p_membw = *x;
        }
    } else if crate::outside::str_eq(name, "p_calculated") {
        if let Content::Int(x) = &e.content {
            v.p_calculated = *x;
        }
    } else if crate::outside::str_eq(name, "p_vm_extensions_disabled") {
        if let Content::Bool(x) = &e.content {
            v.p_vm_extensions_disabled = *x;
        }
    } else if crate::outside::str_eq(name, "m_nbytes") {
        if let Content::Int(x) = &e.content {
            v.m_nbytes = *x;
        }
    } else if crate::outside::str_eq(name, "m_cache") {
        if let Content::Int(x) = &e.content {
            v.m_cache = *x;
        }
    } else if crate::outside::str_eq(name, "m_swap") {
        if let Content::Int(x) = &e.content {
            v.m_swap = *x;
        }
    } else if crate::outside::str_eq(name, "d_total") {
        if let Content::Int(x) = &e.content {
            v.d_total = *x;
        }
    } else if crate::outside::str_eq(name, "d_free") {
        if let Content::Int(x) = &e.content {
            v.d_free = *x;
        }
    } else if crate::outside::str_eq(name, "os_name") {
        if let Content::Text(x) = &e.content {
            v.os_name = x.clone();
        }
    } else if crate::outside::str_eq(name, "os_version") {
        if let Content::Text(x) = &e.content {
            v.os_version = x.clone();
        }
    } else if crate::outside::str_eq(name, "product_name") {
        if let Content::Text(x) = &e.content {
            v.product_name = x.clone();
        }
    } else if crate::outside::str_eq(name, "mac_address") {
        if let Content::Text(x) = &e.content {
            v.mac_address = x.clone();
        }
    }
}

/// The element is the wire form of host snapshot `h`.
pub open spec fn spec_host_info_el(e: Element, h: HostInfo) -> bool {
    &&& e.name@ == "host_info"@
    &&& e.children@.len() == 23
    &&& spec_int_el(e.children@[0], "tz_shift"@, h.tz_shift)
    &&& spec_text_el(e.children@[1], "domain_name"@, h.domain_name@)
    &&& spec_text_el(e.children@[2], "serialnum"@, h.serialnum@)
    &&& spec_text_el(e.children@[3], "ip_addr"@, h.ip_addr@)
    &&& spec_text_el(e.children@[4], "host_cpid"@, h.host_cpid@)
    &&& spec_int_el(e.children@[5], "p_ncpus"@, h.p_ncpus)
    &&& spec_text_el(e.children@[6], "p_vendor"@, h.p_vendor@)
    &&& spec_text_el(e.children@[7], "p_model"@, h.p_model@)
    &&& spec_text_el(e.children@[8], "p_features"@, h.p_features@)
    &&& spec_int_el(e.children@[9], "p_fpops"@, h.p_fpops)
    &&& spec_int_el(e.children@[10], "p_iops"@, h.p_iops)
    &&& spec_int_el(e.children@[11], "p_membw"@, h.p_membw)
    &&& spec_int_el(e.children@[12], "p_calculated"@, h.p_calculated)
    &&& spec_bool_el(e.children@[13], "p_vm_extensions_disabled"@, h.p_vm_extensions_disabled)
    &&& spec_int_el(e.children@[14], "m_nbytes"@, h.m_nbytes)
    &&& spec_int_el(e.children@[15], "m_cache"@, h.m_cache)
    &&& spec_int_el(e.children@[16], "m_swap"@, h.m_swap)
    &&& spec_int_el(e.children@[17], "d_total"@, h.d_total)
    &&& spec_int_el(e.children@[18], "d_free"@, h.d_free)
    &&& spec_text_el(e.children@[19], "os_name"@, h.os_name@)
    &&& spec_text_el(e.children@[20], "os_version"@, h.os_version@)
    &&& spec_text_el(e.children@[21], "product_name"@, h.product_name@)
    &&& spec_text_el(e.children@[22], "mac_address"@, h.mac_address@)
}

impl HostInfo {
    /// Reads a snapshot out of its element form: children are applied left
    /// to right onto a default snapshot, unrecognized names ignored.
    pub fn try_from(root: &Element) -> (r: Result<HostInfo, Error>)
        ensures
            match r {
                Ok(h) => exists|d: HostInfo|
                    spec_host_info_default(d) && h == spec_host_fold(d, root.children@),
                Err(_) => false,
            },
    {
        let mut v = HostInfo::default();
        let ghost d = v;
        let mut i: usize = 0;
        while i < root.children.len()
            invariant
                i <= root.children@.len(),
                v == spec_host_fold(d, root.children@.take(i as int)),
                spec_host_info_default(d),
            decreases root.children@.len() - i,
        {
            apply_host_child(&mut v, &root.children[i]);
            proof {
                assert(root.children@.take(i + 1 as int) =~= root.children@.take(i as int).push(
                    root.children@[i as int],
                ));
                lemma_host_fold_push(d, root.children@.take(i as int), root.children@[i as int]);
            }
            i = i + 1;
        }
        proof {
            assert(root.children@.take(root.children@.len() as int) =~= root.children@);
        }
        Ok(v)
    }

    /// The snapshot's element form.
    pub fn to_element(&self) -> (e: Element)
        ensures
            spec_host_info_el(e, *self),
    {
        let mut children: Vec<Element> = Vec::new();
        children.push(Element::num("tz_shift", self.tz_shift));
        children.push(Element::text("domain_name", self.domain_name.clone()));
        children.push(Element::text("serialnum", self.serialnum.clone()));
        children.push(Element::text("ip_addr", self.ip_addr.clone()));
        children.push(Element::text("host_cpid", self.host_cpid.clone()));
        children.push(Element::num("p_ncpus", self.p_ncpus));
        children.push(Element::text("p_vendor", self.p_vendor.clone()));
        children.push(Element::text("p_model", self.p_model.clone()));
        children.push(Element::text("p_features", self.p_features.clone()));
        children.push(Element::num("p_fpops", self.p_fpops));
        children.push(Element::num("p_iops", self.p_iops));
        children.push(Element::num("p_membw", self.p_membw));
        children.push(Element::num("p_calculated", self.p_calculated));
        children.push(Element::flag("p_vm_extensions_disabled", self.p_vm_extensions_disabled));
        children.push(Element::num("m_nbytes", self.m_nbytes));
        children.push(Element::num("m_cache", self.m_cache));
        children.push(Element::num("m_swap", self.m_swap));
        children.push(Element::num("d_total", self.d_total));
        children.push(Element::num("d_free", self.d_free));
        children.push(Element::text("os_name", self.os_name.clone()));
        children.push(Element::text("os_version", self.os_version.clone()));
        children.push(Element::text("product_name", self.product_name.clone()));
        children.push(Element::text("mac_address", self.mac_address.clone()));
        Element::node("host_info", children)
    }
}

} // verus!
