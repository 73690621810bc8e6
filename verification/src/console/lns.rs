//! The declarative LNS document as the console edits it, and the decisions of
//! the guided application and device wizards.

use vstd::prelude::*;
use vstd::string::StringExecFns;

use crate::text::{
    chars_ascii_lower, chars_eq_str, lower, parse_unsigned, parse_usize, str_eq, string_from_chars, trim,
    trimmed_chars,
};

verus! {

#[derive(Debug, Clone, Copy, PartialEq, Eq, Structural)]
pub enum ActivationMode {
    Otaa,
    Abp,
}

#[derive(Debug, Clone, PartialEq, Eq)]
pub struct OtaaKeys {
    pub join_eui: String,
    pub app_key: String,
    pub nwk_key: Option<String>,
}

#[derive(Debug, Clone, PartialEq, Eq)]
pub struct AbpKeys {
    pub apps_key: Option<String>,
    pub nwks_key: Option<String>,
}

#[derive(Debug, Clone, PartialEq, Eq)]
pub struct ApplicationEntry {
    pub id: String,
    pub name: String,
    pub default_region: String,
}

#[derive(Debug, Clone, PartialEq, Eq)]
pub struct DeviceEntry {
    pub activation_mode: ActivationMode,
    pub dev_eui: String,
    pub dev_addr: Option<String>,
    pub application_id: String,
    pub region: String,
    pub enabled: bool,
    pub otaa: Option<OtaaKeys>,
    pub abp: Option<AbpKeys>,
}

/// How unknown DevAddrs are turned into pending rows.
#[derive(Debug, Clone, Copy, PartialEq, Eq, Default, Structural)]
pub struct AutoprovisionPolicy {
    pub enabled: bool,
    pub rate_limit_per_gateway_per_minute: u32,
    pub pending_ttl_secs: u64,
}

/// The operator-edited LNS configuration. The radio block is kept as its TOML text.
#[derive(Debug, Clone, PartialEq, Eq)]
pub struct LnsConfigDocument {
    pub schema_version: u32,
    pub autoprovision: AutoprovisionPolicy,
    pub radio: Option<String>,
    pub applications: Vec<ApplicationEntry>,
    pub devices: Vec<DeviceEntry>,
}

impl LnsConfigDocument {
    pub const CURRENT_SCHEMA_VERSION: u32 = 1;

    /// An empty document of the current schema.
    pub fn empty(autoprovision: AutoprovisionPolicy) -> (d: Self)
        ensures
            d.schema_version == 1,
            d.autoprovision == autoprovision,
            d.radio is None,
            d.applications@.len() == 0,
            d.devices@.len() == 0,
    {
        LnsConfigDocument {
            schema_version: 1,
            autoprovision,
            radio: None,
            applications: Vec::new(),
            devices: Vec::new(),
        }
    }
}

/// The outcome of writing the document: written, or written to a temporary
/// file that the operator must copy over the target.
#[derive(Debug, Clone, PartialEq, Eq)]
pub enum SaveLnsOutcome {
    Saved,
    WroteTemp { temp_path: String, target: String },
}

/// The application id of each device, in order.
pub open spec fn device_app_ids(devices: Seq<DeviceEntry>) -> Seq<Seq<char>> {
    devices.map_values(|d: DeviceEntry| d.application_id@)
}

/// The positions, in increasing order, at which `ids` holds `id`.
pub open spec fn indices_of(ids: Seq<Seq<char>>, id: Seq<char>) -> Seq<usize>
    decreases ids.len(),
{
    if ids.len() == 0 {
        seq![]
    } else if ids.last() == id {
        indices_of(ids.drop_last(), id).push((ids.len() - 1) as usize)
    } else {
        indices_of(ids.drop_last(), id)
    }
}

/// Indices of the devices whose application id is `app_id`.
pub fn device_indices_with_application_id(doc: &LnsConfigDocument, app_id: &str) -> (r: Vec<usize>)
    ensures
        r@ == indices_of(device_app_ids(doc.devices@), app_id@),
{
    let mut r: Vec<usize> = Vec::new();
    let mut i: usize = 0;
    while i < doc.devices.len()
        invariant
            0 <= i <= doc.devices@.len(),
            r@ == indices_of(device_app_ids(doc.devices@.subrange(0, i as int)), app_id@),
        decreases doc.devices@.len() - i,
    {
        let ghost prev = device_app_ids(doc.devices@.subrange(0, i as int));
        let ghost next = device_app_ids(doc.devices@.subrange(0, i + 1));
        assert(next.drop_last() =~= prev);
        assert(next.last() == doc.devices@[i as int].application_id@);
        if str_eq(doc.devices[i].application_id.as_str(), app_id) {
            r.push(i);
        }
        i = i + 1;
    }
    assert(doc.devices@.subrange(0, doc.devices@.len() as int) =~= doc.devices@);
    r
}

/// Each index `indices_of` gives holds the id, and every position holding it is listed.
pub proof fn lemma_indices_of_exact(ids: Seq<Seq<char>>, id: Seq<char>)
    requires
        ids.len() <= usize::MAX,
    ensures
        forall|k: int| 0 <= k < indices_of(ids, id).len() ==> {
            let j = #[trigger] indices_of(ids, id)[k];
            0 <= j < ids.len() && ids[j as int] == id
        },
        forall|j: int| 0 <= j < ids.len() && ids[j] == id ==> indices_of(ids, id).contains(j as usize),
    decreases ids.len(),
{
    if ids.len() > 0 {
        let p = ids.drop_last();
        lemma_indices_of_exact(p, id);
        let q = indices_of(p, id);
        if ids.last() == id {
            let r = q.push((ids.len() - 1) as usize);
            assert(indices_of(ids, id) == r);
            assert forall|k: int| 0 <= k < r.len() implies {
                let j = #[trigger] r[k];
                0 <= j < ids.len() && ids[j as int] == id
            } by {
                if k < q.len() {
                    assert(r[k] == q[k]);
                    assert(p[q[k] as int] == ids[q[k] as int]);
                }
            }
            assert forall|j: int| 0 <= j < ids.len() && ids[j] == id implies r.contains(j as usize) by {
                if j < ids.len() - 1 {
                    assert(p[j] == ids[j]);
                    let k = choose|k: int| 0 <= k < q.len() && q[k] == j as usize;
                    assert(r[k] == j as usize);
                } else {
                    assert(r[q.len() as int] == j as usize);
                }
            }
        } else {
            assert(indices_of(ids, id) == q);
            assert forall|k: int| 0 <= k < q.len() implies {
                let j = #[trigger] q[k];
                0 <= j < ids.len() && ids[j as int] == id
            } by {
                assert(p[q[k] as int] == ids[q[k] as int]);
            }
            assert forall|j: int| 0 <= j < ids.len() && ids[j] == id implies q.contains(j as usize) by {
                assert(p[j] == ids[j]);
            }
        }
    }
}

/// Whether an application with this id exists.
pub fn application_id_exists(doc: &LnsConfigDocument, id: &str) -> (b: bool)
    ensures
        b == exists|k: int| 0 <= k < doc.applications@.len() && #[trigger] doc.applications@[k].id@ == id@,
{
    let mut i: usize = 0;
    while i < doc.applications.len()
        invariant
            0 <= i <= doc.applications@.len(),
            forall|k: int| 0 <= k < i ==> #[trigger] doc.applications@[k].id@ != id@,
        decreases doc.applications@.len() - i,
    {
        if str_eq(doc.applications[i].id.as_str(), id) {
            return true;
        }
        i = i + 1;
    }
    false
}

/// The ids after the ones at `indices` are replaced by `new_id`.
pub open spec fn reassign_ids(ids: Seq<Seq<char>>, indices: Seq<usize>, new_id: Seq<char>) -> Seq<Seq<char>> {
    Seq::new(
        ids.len(),
        |j: int|
            if indices.contains(j as usize) {
                new_id
            } else {
                ids[j]
            },
    )
}

/// The application ids of the devices after the ones at `indices` are moved to `new_id`.
pub open spec fn reassigned(devices: Seq<DeviceEntry>, indices: Seq<usize>, new_id: Seq<char>) -> Seq<Seq<char>> {
    reassign_ids(device_app_ids(devices), indices, new_id)
}

/// Sets the application id of the devices at `indices` to `id`; indices past the
/// end of the device list are skipped.
pub fn set_device_application(doc: &mut LnsConfigDocument, indices: &Vec<usize>, id: &String)
    ensures
        final(doc).applications == old(doc).applications,
        final(doc).devices@.len() == old(doc).devices@.len(),
        device_app_ids(final(doc).devices@) == reassigned(old(doc).devices@, indices@, id@),
        forall|j: int| 0 <= j < final(doc).devices@.len() ==> {
            let a = #[trigger] final(doc).devices@[j];
            let b = old(doc).devices@[j];
            a.activation_mode == b.activation_mode && a.dev_eui == b.dev_eui && a.dev_addr
                == b.dev_addr && a.region == b.region && a.enabled == b.enabled && a.otaa == b.otaa
                && a.abp == b.abp
        },
        final(doc).schema_version == old(doc).schema_version,
        final(doc).autoprovision == old(doc).autoprovision,
        final(doc).radio == old(doc).radio,
{
    let ghost orig = doc.devices@;
    let n = doc.devices.len();
    let mut k: usize = 0;
    while k < indices.len()
        invariant
            0 <= k <= indices@.len(),
            doc.devices@.len() == orig.len(),
            orig.len() == n,
            doc.applications == old(doc).applications,
            doc.schema_version == old(doc).schema_version,
            doc.autoprovision == old(doc).autoprovision,
            doc.radio == old(doc).radio,
            orig == old(doc).devices@,
            forall|j: int| 0 <= j < orig.len() ==> {
                let a = #[trigger] doc.devices@[j];
                let b = orig[j];
                &&& a.activation_mode == b.activation_mode && a.dev_eui == b.dev_eui && a.dev_addr
                    == b.dev_addr && a.region == b.region && a.enabled == b.enabled && a.otaa
                    == b.otaa && a.abp == b.abp
                &&& a.application_id@ == (if indices@.subrange(0, k as int).contains(j as usize) {
                    id@
                } else {
                    b.application_id@
                })
            },
        decreases indices@.len() - k,
    {
        let j = indices[k];
        let ghost old_prefix = indices@.subrange(0, k as int);
        let ghost old_devices = doc.devices@;
        if j < doc.devices.len() {
            let mut d = doc.devices.remove(j);
            d.application_id = id.clone();
            doc.devices.insert(j, d);
            assert(doc.devices@ =~= old_devices.update(j as int, d));
        }
        k = k + 1;
        let ghost new_prefix = indices@.subrange(0, k as int);
        assert(new_prefix =~= old_prefix.push(j));
        assert forall|m: int| 0 <= m < orig.len() implies (#[trigger] new_prefix.contains(m as usize) <==> (
        old_prefix.contains(m as usize) || m == j)) by {
            if new_prefix.contains(m as usize) {
                let w = choose|w: int| 0 <= w < new_prefix.len() && #[trigger] new_prefix[w] == m as usize;
                if w < old_prefix.len() {
                    assert(old_prefix[w] == m as usize);
                }
            }
            if old_prefix.contains(m as usize) {
                let w = choose|w: int| 0 <= w < old_prefix.len() && #[trigger] old_prefix[w] == m as usize;
                assert(new_prefix[w] == m as usize);
            }
            if m == j {
                assert(new_prefix[old_prefix.len() as int] == j);
            }
        }
    }
    assert(indices@.subrange(0, indices@.len() as int) =~= indices@);
    assert(device_app_ids(doc.devices@) =~= reassigned(orig, indices@, id@));
}

/// Every device field but the application id is the same in both lists.
pub open spec fn same_devices_but_application(a: Seq<DeviceEntry>, b: Seq<DeviceEntry>) -> bool {
    &&& a.len() == b.len()
    &&& forall|j: int| 0 <= j < a.len() ==> {
        let x = #[trigger] a[j];
        let y = b[j];
        x.activation_mode == y.activation_mode && x.dev_eui == y.dev_eui && x.dev_addr == y.dev_addr
            && x.region == y.region && x.enabled == y.enabled && x.otaa == y.otaa && x.abp == y.abp
    }
}

/// The devices a rename moves: those of the old id, when the id changes.
pub open spec fn rename_moves(devices: Seq<DeviceEntry>, old_id: Seq<char>, new_id: Seq<char>) -> Seq<usize> {
    if old_id != new_id {
        indices_of(device_app_ids(devices), old_id)
    } else {
        seq![]
    }
}

/// Replaces application `index` by `draft`; when the id changes, the devices of
/// the old id move to the new one. Returns the indices of the moved devices.
pub fn rename_application(doc: &mut LnsConfigDocument, index: usize, draft: ApplicationEntry) -> (moved: Vec<usize>)
    requires
        index < old(doc).applications@.len(),
    ensures
        moved@ == rename_moves(old(doc).devices@, old(doc).applications@[index as int].id@, draft.id@),
        final(doc).applications@ == old(doc).applications@.update(index as int, draft),
        device_app_ids(final(doc).devices@) == reassigned(old(doc).devices@, moved@, draft.id@),
        same_devices_but_application(final(doc).devices@, old(doc).devices@),
        final(doc).schema_version == old(doc).schema_version,
        final(doc).autoprovision == old(doc).autoprovision,
        final(doc).radio == old(doc).radio,
{
    let mut moved: Vec<usize> = Vec::new();
    if !str_eq(doc.applications[index].id.as_str(), draft.id.as_str()) {
        moved = device_indices_with_application_id(doc, doc.applications[index].id.as_str());
        set_device_application(doc, &moved, &draft.id);
    } else {
        assert(device_app_ids(doc.devices@) =~= reassigned(doc.devices@, moved@, draft.id@));
    }
    doc.applications.set(index, draft);
    moved
}

/// Undoes a rename: application `index` becomes `orig` again and the devices at
/// `moved` go back to its id.
pub fn restore_application(doc: &mut LnsConfigDocument, index: usize, orig: ApplicationEntry, moved: &Vec<usize>)
    requires
        index < old(doc).applications@.len(),
    ensures
        final(doc).applications@ == old(doc).applications@.update(index as int, orig),
        device_app_ids(final(doc).devices@) == reassigned(old(doc).devices@, moved@, orig.id@),
        same_devices_but_application(final(doc).devices@, old(doc).devices@),
        final(doc).schema_version == old(doc).schema_version,
        final(doc).autoprovision == old(doc).autoprovision,
        final(doc).radio == old(doc).radio,
{
    set_device_application(doc, moved, &orig.id);
    doc.applications.set(index, orig);
}

/// Moving the devices of `old_id` to `new_id` and back restores every device's
/// application id; and after the move no device is left on the old id.
pub proof fn lemma_rename_round_trip(ids: Seq<Seq<char>>, old_id: Seq<char>, new_id: Seq<char>)
    requires
        ids.len() <= usize::MAX,
        old_id != new_id,
    ensures
        reassign_ids(reassign_ids(ids, indices_of(ids, old_id), new_id), indices_of(ids, old_id), old_id)
            == ids,
        indices_of(reassign_ids(ids, indices_of(ids, old_id), new_id), old_id).len() == 0,
{
    let moved = indices_of(ids, old_id);
    lemma_indices_of_exact(ids, old_id);
    let once = reassign_ids(ids, moved, new_id);
    let back = reassign_ids(once, moved, old_id);
    assert forall|j: int| 0 <= j < ids.len() implies back[j] == ids[j] by {
        if moved.contains(j as usize) {
            let k = choose|k: int| 0 <= k < moved.len() && moved[k] == j as usize;
            assert(ids[moved[k] as int] == old_id);
        }
    }
    assert(back =~= ids);
    assert forall|j: int| 0 <= j < once.len() implies once[j] != old_id by {
        if !moved.contains(j as usize) {
            assert(ids[j] != old_id);
        }
    }
    lemma_indices_of_exact(once, old_id);
    if indices_of(once, old_id).len() > 0 {
        let j = indices_of(once, old_id)[0];
        assert(once[j as int] == old_id);
    }
}

/// Removes application `index` unless devices still reference it; then the
/// document is unchanged and the referencing device indices come back.
pub fn remove_application_if_unreferenced(doc: &mut LnsConfigDocument, index: usize) -> (r: Result<(), Vec<usize>>)
    requires
        index < old(doc).applications@.len(),
    ensures
        ({
            let refs = indices_of(device_app_ids(old(doc).devices@), old(doc).applications@[index as int].id@);
            match r {
                Ok(()) => refs.len() == 0 && final(doc).applications@ == old(doc).applications@.remove(
                    index as int,
                ) && final(doc).devices == old(doc).devices
                    && final(doc).schema_version == old(doc).schema_version
                    && final(doc).autoprovision == old(doc).autoprovision
                    && final(doc).radio == old(doc).radio,
                Err(v) => v@ == refs && refs.len() > 0 && *final(doc) == *old(doc),
            }
        }),
{
    let refs = device_indices_with_application_id(doc, doc.applications[index].id.as_str());
    if refs.len() > 0 {
        return Err(refs);
    }
    doc.applications.remove(index);
    Ok(())
}

/// A choice in the applications or devices wizard.
#[derive(Debug, Clone, Copy, PartialEq, Eq, Structural)]
pub enum WizardChoice {
    Back,
    Add,
    Edit,
    Remove,
    Save,
    Redraw,
    Unknown,
}

pub open spec fn spec_wizard_choice(line: Seq<char>) -> WizardChoice {
    let c = lower(trim(line));
    if c == "b"@ || c == "q"@ {
        WizardChoice::Back
    } else if c == "a"@ {
        WizardChoice::Add
    } else if c == "e"@ {
        WizardChoice::Edit
    } else if c == "r"@ {
        WizardChoice::Remove
    } else if c == "s"@ {
        WizardChoice::Save
    } else if c.len() == 0 {
        WizardChoice::Redraw
    } else {
        WizardChoice::Unknown
    }
}

pub fn parse_wizard_choice(line: &str) -> (c: WizardChoice)
    ensures
        c == spec_wizard_choice(line@),
{
    let c = chars_ascii_lower(&trimmed_chars(line));
    if chars_eq_str(&c, "b") || chars_eq_str(&c, "q") {
        WizardChoice::Back
    } else if chars_eq_str(&c, "a") {
        WizardChoice::Add
    } else if chars_eq_str(&c, "e") {
        WizardChoice::Edit
    } else if chars_eq_str(&c, "r") {
        WizardChoice::Remove
    } else if chars_eq_str(&c, "s") {
        WizardChoice::Save
    } else if c.len() == 0 {
        WizardChoice::Redraw
    } else {
        WizardChoice::Unknown
    }
}

/// Why a 1-based index was not taken.
#[derive(Debug, Clone, Copy, PartialEq, Eq, Structural)]
pub enum IndexError {
    /// Not a number: the wizard ends with "invalid index".
    Invalid,
    /// Zero or past the end: the wizard says "Out of range." and asks again.
    OutOfRange,
}

/// A 1-based index among `len` entries, returned 0-based.
pub fn parse_one_based_index(raw: &str, len: usize) -> (r: Result<usize, IndexError>)
    ensures
        match parse_unsigned(raw@, usize::MAX as nat) {
            None => r == Err::<usize, IndexError>(IndexError::Invalid),
            Some(n) => if 1 <= n <= len {
                r == Ok::<usize, IndexError>((n - 1) as usize)
            } else {
                r == Err::<usize, IndexError>(IndexError::OutOfRange)
            },
        },
{
    match parse_usize(raw) {
        None => Err(IndexError::Invalid),
        Some(n) => if n == 0 || n > len {
            Err(IndexError::OutOfRange)
        } else {
            Ok(n - 1)
        },
    }
}

/// How the operator picked the application of a device.
#[derive(Debug, Clone, Copy, PartialEq, Eq, Structural)]
pub enum ApplicationSelection {
    /// The id is typed in at the next prompt.
    Manual,
    /// The application at this 0-based position.
    Listed(usize),
}

/// `m` or `manual` (any case) asks for the id; else a 1-based number among `count`.
pub open spec fn spec_application_selection(raw: Seq<char>, count: usize) -> Result<ApplicationSelection, Seq<char>> {
    let t = lower(trim(raw));
    if t == "m"@ || t == "manual"@ {
        Ok(ApplicationSelection::Manual)
    } else {
        match parse_unsigned(t, usize::MAX as nat) {
            None => Err("invalid number"@),
            Some(n) => if n == 0 || n > count {
                Err("application index out of range"@)
            } else {
                Ok(ApplicationSelection::Listed((n - 1) as usize))
            },
        }
    }
}

pub fn parse_application_selection(raw: &str, count: usize) -> (r: Result<ApplicationSelection, String>)
    ensures
        match (r, spec_application_selection(raw@, count)) {
            (Ok(a), Ok(b)) => a == b,
            (Err(e), Err(m)) => e@ == m,
            _ => false,
        },
{
    let t = chars_ascii_lower(&trimmed_chars(raw));
    if chars_eq_str(&t, "m") || chars_eq_str(&t, "manual") {
        return Ok(ApplicationSelection::Manual);
    }
    let ts = string_from_chars(&t);
    match parse_usize(ts.as_str()) {
        None => Err(String::from_str("invalid number")),
        Some(n) => if n == 0 || n > count {
            Err(String::from_str("application index out of range"))
        } else {
            Ok(ApplicationSelection::Listed(n - 1))
        },
    }
}

/// The activation mode picked by number: `1` OTAA, `2` ABP.
pub fn parse_activation_mode_choice(raw: &str) -> (r: Result<ActivationMode, String>)
    ensures
        trim(raw@) == "1"@ ==> r == Ok::<ActivationMode, String>(ActivationMode::Otaa),
        trim(raw@) == "2"@ ==> r == Ok::<ActivationMode, String>(ActivationMode::Abp),
        trim(raw@) != "1"@ && trim(raw@) != "2"@ ==> (r matches Err(e) && e@ == "invalid choice (use 1 or 2)"@),
{
    proof {
        reveal_strlit("1");
        reveal_strlit("2");
    }
    let t = trimmed_chars(raw);
    assert("1"@ != "2"@) by {
        assert("1"@[0] != "2"@[0]);
    }
    if chars_eq_str(&t, "1") {
        Ok(ActivationMode::Otaa)
    } else if chars_eq_str(&t, "2") {
        Ok(ActivationMode::Abp)
    } else {
        Err(String::from_str("invalid choice (use 1 or 2)"))
    }
}

/// The activation mode named `otaa` or `abp` (any case, surrounding whitespace ignored).
pub fn parse_activation_mode_name(raw: &str) -> (r: Option<ActivationMode>)
    ensures
        r == (if lower(trim(raw@)) == "otaa"@ {
            Some(ActivationMode::Otaa)
        } else if lower(trim(raw@)) == "abp"@ {
            Some(ActivationMode::Abp)
        } else {
            None
        }),
{
    let t = chars_ascii_lower(&trimmed_chars(raw));
    if chars_eq_str(&t, "otaa") {
        Some(ActivationMode::Otaa)
    } else if chars_eq_str(&t, "abp") {
        Some(ActivationMode::Abp)
    } else {
        None
    }
}

/// The name under which a mode is offered as the default.
pub fn activation_mode_name(mode: ActivationMode) -> (s: &'static str)
    ensures
        s@ == (match mode {
            ActivationMode::Otaa => "otaa"@,
            ActivationMode::Abp => "abp"@,
        }),
{
    match mode {
        ActivationMode::Otaa => "otaa",
        ActivationMode::Abp => "abp",
    }
}

/// `true`, `1` or `yes` (any case) enable a device; anything else disables it.
pub fn parse_enabled_flag(raw: &str) -> (b: bool)
    ensures
        b == (lower(raw@) == "true"@ || lower(raw@) == "1"@ || lower(raw@) == "yes"@),
{
    let l = chars_ascii_lower(&crate::text::str_chars(raw));
    chars_eq_str(&l, "true") || chars_eq_str(&l, "1") || chars_eq_str(&l, "yes")
}

/// An optional value entered at a prompt: `None` when it is blank.
pub fn optional_text(s: String) -> (r: Option<String>)
    ensures
        trim(s@).len() == 0 ==> r is None,
        trim(s@).len() != 0 ==> r == Some(s),
{
    let t = trimmed_chars(s.as_str());
    if t.len() == 0 {
        None
    } else {
        Some(s)
    }
}

/// The DevAddr column of the device list: the address, or `(none)` when absent or blank.
pub fn dev_addr_display(dev_addr: &Option<String>) -> (s: String)
    ensures
        s@ == (match dev_addr {
            Some(a) => if trim(a@).len() == 0 {
                "(none)"@
            } else {
                a@
            },
            None => "(none)"@,
        }),
{
    match dev_addr {
        Some(a) => {
            let t = trimmed_chars(a.as_str());
            if t.len() == 0 {
                String::from_str("(none)")
            } else {
                a.clone()
            }
        },
        None => String::from_str("(none)"),
    }
}

/// Devices listed in the preview of a rename, and of a refused removal.
pub const PREVIEW_DEVICE_ROWS_RENAME: usize = 8;

pub const PREVIEW_DEVICE_ROWS_REMOVE: usize = 5;

/// How many entries a preview of `limit` rows leaves out (`None` when all fit).
pub fn preview_overflow(total: usize, limit: usize) -> (r: Option<usize>)
    ensures
        total > limit ==> r == Some((total - limit) as usize),
        total <= limit ==> r is None,
{
    if total > limit {
        Some(total - limit)
    } else {
        None
    }
}

} // verus!
