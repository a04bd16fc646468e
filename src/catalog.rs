use vstd::prelude::*;

verus! {

/// One device as the HID backend reports it during enumeration.
///
/// `path` is `None` when the platform path is not valid UTF-8.
#[derive(Clone, Debug)]
pub struct HidDescriptor {
    pub vendor_id: u16,
    pub product_id: u16,
    pub usage_page: u16,
    pub usage: u16,
    pub path: Option<String>,
    pub product_string: Option<String>,
}

/// One device offered to the user: what a caller needs to show it and to open it.
#[derive(Clone, Debug)]
pub struct DeviceInfo {
    pub vendor_id: u16,
    pub product_id: u16,
    pub path: String,
    pub product_string: Option<String>,
}

pub ghost struct HidDescriptorView {
    pub vendor_id: u16,
    pub product_id: u16,
    pub usage_page: u16,
    pub usage: u16,
    pub path: Option<Seq<char>>,
    pub product_string: Option<Seq<char>>,
}

pub ghost struct DeviceInfoView {
    pub vendor_id: u16,
    pub product_id: u16,
    pub path: Seq<char>,
    pub product_string: Option<Seq<char>>,
}

pub open spec fn opt_text(s: Option<String>) -> Option<Seq<char>> {
    match s {
        Some(t) => Some(t@),
        None => None,
    }
}

impl View for HidDescriptor {
    type V = HidDescriptorView;

    open spec fn view(&self) -> HidDescriptorView {
        HidDescriptorView {
            vendor_id: self.vendor_id,
            product_id: self.product_id,
            usage_page: self.usage_page,
            usage: self.usage,
            path: opt_text(self.path),
            product_string: opt_text(self.product_string),
        }
    }
}

impl View for DeviceInfo {
    type V = DeviceInfoView;

    open spec fn view(&self) -> DeviceInfoView {
        DeviceInfoView {
            vendor_id: self.vendor_id,
            product_id: self.product_id,
            path: self.path@,
            product_string: opt_text(self.product_string),
        }
    }
}

/// Usage page 0x01 (generic desktop) with usage 0x01 or 0x02: the standard
/// keyboards and mice, never offered as console targets.
pub open spec fn is_standard_input(d: HidDescriptorView) -> bool {
    d.usage_page == 0x01 && (d.usage == 0x01 || d.usage == 0x02)
}

/// A placeholder interface: vendor id 0 or product id 0.
pub open spec fn has_zero_id(d: HidDescriptorView) -> bool {
    d.vendor_id == 0 || d.product_id == 0
}

/// Whether enumeration offers `d`, with placeholders hidden when `hide_zero` holds.
pub open spec fn is_offered(d: HidDescriptorView, hide_zero: bool) -> bool {
    !is_standard_input(d) && !(hide_zero && has_zero_id(d))
}

/// The offered descriptors of `s`, in enumeration order.
pub open spec fn offered(s: Seq<HidDescriptorView>, hide_zero: bool) -> Seq<HidDescriptorView>
    decreases s.len(),
{
    if s.len() == 0 {
        Seq::empty()
    } else {
        let rest = offered(s.drop_last(), hide_zero);
        if is_offered(s.last(), hide_zero) {
            rest.push(s.last())
        } else {
            rest
        }
    }
}

/// The entry shown for a descriptor; a path that is not text shows as empty.
pub open spec fn info_of(d: HidDescriptorView) -> DeviceInfoView {
    DeviceInfoView {
        vendor_id: d.vendor_id,
        product_id: d.product_id,
        path: match d.path {
            Some(p) => p,
            None => Seq::empty(),
        },
        product_string: d.product_string,
    }
}

pub open spec fn descriptors_view(v: Seq<HidDescriptor>) -> Seq<HidDescriptorView> {
    v.map_values(|d: HidDescriptor| d@)
}

pub open spec fn infos_view(v: Seq<DeviceInfo>) -> Seq<DeviceInfoView> {
    v.map_values(|d: DeviceInfo| d@)
}

/// What a listing holds: the entries of the offered descriptors, in order.
pub open spec fn listing(s: Seq<HidDescriptorView>, hide_zero: bool) -> Seq<DeviceInfoView> {
    offered(s, hide_zero).map_values(|d: HidDescriptorView| info_of(d))
}

/// Every offered descriptor comes from the enumeration and is not a standard
/// keyboard or mouse, whatever the placeholder setting.
pub proof fn lemma_offered_excludes_standard_input(s: Seq<HidDescriptorView>, hide_zero: bool)
    ensures
        forall|i: int|
            0 <= i < offered(s, hide_zero).len() ==> {
                &&& !is_standard_input(#[trigger] offered(s, hide_zero)[i])
                &&& s.contains(offered(s, hide_zero)[i])
            },
    decreases s.len(),
{
    if s.len() > 0 {
        lemma_offered_excludes_standard_input(s.drop_last(), hide_zero);
        let rest = offered(s.drop_last(), hide_zero);
        assert forall|i: int| 0 <= i < offered(s, hide_zero).len() implies {
            &&& !is_standard_input(#[trigger] offered(s, hide_zero)[i])
            &&& s.contains(offered(s, hide_zero)[i])
        } by {
            if i < rest.len() {
                assert(s.drop_last().contains(rest[i]));
                let j = choose|j: int| 0 <= j < s.drop_last().len() && s.drop_last()[j] == rest[i];
                assert(s[j] == rest[i]);
            } else {
                assert(s[s.len() - 1] == s.last());
            }
        }
    }
}

/// With placeholders hidden, every offered descriptor has non-zero vendor and
/// product ids.
pub proof fn lemma_offered_excludes_zero_ids(s: Seq<HidDescriptorView>)
    ensures
        forall|i: int|
            0 <= i < offered(s, true).len() ==> !has_zero_id(#[trigger] offered(s, true)[i]),
    decreases s.len(),
{
    if s.len() > 0 {
        lemma_offered_excludes_zero_ids(s.drop_last());
        let rest = offered(s.drop_last(), true);
        assert forall|i: int| 0 <= i < offered(s, true).len() implies !has_zero_id(
            #[trigger] offered(s, true)[i],
        ) by {
            if i < rest.len() {
                assert(!has_zero_id(rest[i]));
            }
        }
    }
}

/// No listed device is a standard keyboard or mouse: each entry is shown for
/// a descriptor of the enumeration that is none.
pub proof fn lemma_listing_excludes_standard_input(s: Seq<HidDescriptorView>, hide_zero: bool)
    ensures
        forall|i: int|
            0 <= i < listing(s, hide_zero).len() ==> exists|j: int|
                0 <= j < s.len() && !is_standard_input(s[j]) && #[trigger] listing(s, hide_zero)[i]
                    == info_of(s[j]),
{
    lemma_offered_excludes_standard_input(s, hide_zero);
    let o = offered(s, hide_zero);
    assert forall|i: int| 0 <= i < listing(s, hide_zero).len() implies exists|j: int|
        0 <= j < s.len() && !is_standard_input(s[j]) && #[trigger] listing(s, hide_zero)[i]
            == info_of(s[j]) by {
        assert(!is_standard_input(o[i]));
        assert(s.contains(o[i]));
        let j = choose|j: int| 0 <= j < s.len() && s[j] == o[i];
        assert(listing(s, hide_zero)[i] == info_of(s[j]));
    }
}

/// With placeholders hidden, no listed device has vendor id 0 or product id 0.
pub proof fn lemma_listing_excludes_zero_ids(s: Seq<HidDescriptorView>)
    ensures
        forall|i: int|
            0 <= i < listing(s, true).len() ==> #[trigger] listing(s, true)[i].vendor_id != 0
                && listing(s, true)[i].product_id != 0,
{
    lemma_offered_excludes_zero_ids(s);
    assert forall|i: int| 0 <= i < listing(s, true).len() implies #[trigger] listing(
        s,
        true,
    )[i].vendor_id != 0 && listing(s, true)[i].product_id != 0 by {
        assert(!has_zero_id(offered(s, true)[i]));
    }
}

fn copy_text(s: &Option<String>) -> (r: Option<String>)
    ensures
        opt_text(r) == opt_text(*s),
{
    match s {
        Some(t) => Some(t.clone()),
        None => None,
    }
}

fn is_standard_input_device(d: &HidDescriptor) -> (r: bool)
    ensures
        r == is_standard_input(d@),
{
    d.usage_page == 0x01 && (d.usage == 0x01 || d.usage == 0x02)
}

fn keeps(d: &HidDescriptor, hide_zero: bool) -> (r: bool)
    ensures
        r == is_offered(d@, hide_zero),
{
    if is_standard_input_device(d) {
        false
    } else if hide_zero {
        d.vendor_id != 0 && d.product_id != 0
    } else {
        true
    }
}

fn to_info(d: &HidDescriptor) -> (r: DeviceInfo)
    ensures
        r@ == info_of(d@),
{
    let path = match &d.path {
        Some(p) => p.clone(),
        None => String::new(),
    };
    DeviceInfo {
        vendor_id: d.vendor_id,
        product_id: d.product_id,
        path,
        product_string: copy_text(&d.product_string),
    }
}

/// The devices to offer from one enumeration, in enumeration order.
///
/// Standard keyboards and mice are always left out; with
/// `filter_zero_vid_pid == Some(true)` so is every device whose vendor or
/// product id is 0.
pub fn list_devices(devices: &Vec<HidDescriptor>, filter_zero_vid_pid: Option<bool>) -> (r: Vec<
    DeviceInfo,
>)
    ensures
        infos_view(r@) == listing(
            descriptors_view(devices@),
            filter_zero_vid_pid == Some(true),
        ),
{
    let hide_zero = match filter_zero_vid_pid {
        Some(b) => b,
        None => false,
    };
    let ghost all = descriptors_view(devices@);
    let mut out: Vec<DeviceInfo> = Vec::new();
    let mut i: usize = 0;
    while i < devices.len()
        invariant
            i <= devices.len(),
            all == descriptors_view(devices@),
            hide_zero == (filter_zero_vid_pid == Some(true)),
            infos_view(out@) == listing(all.subrange(0, i as int), hide_zero),
        decreases devices.len() - i,
    {
        let d = &devices[i];
        assert(all.subrange(0, i + 1).drop_last() =~= all.subrange(0, i as int));
        assert(all.subrange(0, i + 1).last() == d@);
        if keeps(d, hide_zero) {
            let info = to_info(d);
            proof {
                let prev = offered(all.subrange(0, i as int), hide_zero);
                assert(prev.push(d@).map_values(|x: HidDescriptorView| info_of(x)) =~= prev.map_values(
                    |x: HidDescriptorView| info_of(x),
                ).push(info_of(d@)));
                assert(infos_view(out@.push(info)) =~= infos_view(out@).push(info@));
            }
            out.push(info);
        }
        i = i + 1;
    }
    assert(all.subrange(0, devices@.len() as int) =~= all);
    out
}

} // verus!
