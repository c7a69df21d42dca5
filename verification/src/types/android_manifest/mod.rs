//! The `AndroidManifest.xml` of an application.
pub mod inner;

use vstd::prelude::*;
use crate::argv::{join, join_offset, join_strings, lemma_join_holds_items, lemma_join_items_occur, lemma_occurs_in_concat, occurs_in};
use crate::text::{bool_text, bool_to_str, decimal, push_decimal, push_zero_padded, zero_padded};
use crate::types::android_manifest::inner::{
    feature_xml, intent_filter_xml, metadata_xml, permission_xml, ActivityMetadata,
    ApplicationMetadata, Feature, IntentFilter, Permission,
};

verus! {

/// The content of a generated `AndroidManifest.xml`.
#[derive(Debug)]
pub struct AndroidManifest {
    pub package_name: String,
    pub package_label: String,
    pub version_name: String,
    pub version_code: u32,
    pub target_name: String,
    pub target_sdk_version: u32,
    pub min_sdk_version: u32,
    pub opengles_version: (u8, u8),
    pub features: Vec<Feature>,
    pub permissions: Vec<Permission>,
    pub intent_filters: Vec<IntentFilter>,
    pub icon: Option<String>,
    pub fullscreen: bool,
    pub orientation: Option<String>,
    pub debuggable: bool,
    pub split: Option<String>,
    pub application_metadatas: Vec<ApplicationMetadata>,
    pub activity_metadatas: Vec<ActivityMetadata>,
}

/// The split attributes of a feature split, nothing for the base apk.
pub open spec fn split_attr(split: Option<String>) -> Seq<char> {
    match split {
        Some(s) => "split=\""@ + s@ + "\" android:isFeatureSplit=\"true\""@,
        None => Seq::empty(),
    }
}

/// The icon attribute, nothing when there is no icon.
pub open spec fn icon_attr(icon: Option<String>) -> Seq<char> {
    match icon {
        Some(i) => "android:icon=\""@ + i@ + "\""@,
        None => Seq::empty(),
    }
}

/// The full screen theme attribute, nothing when the application is not full screen.
pub open spec fn fullscreen_attr(fullscreen: bool) -> Seq<char> {
    if fullscreen {
        "android:theme=\"@android:style/Theme.DeviceDefault.NoActionBar.Fullscreen\""@
    } else {
        ""@
    }
}

/// The screen orientation, `unspecified` when none is given.
pub open spec fn orientation_text(orientation: Option<String>) -> Seq<char> {
    match orientation {
        Some(o) => o@,
        None => "unspecified"@,
    }
}

/// The OpenGL ES version as `0x` followed by major and minor, each padded to 4 digits.
pub open spec fn opengles_text(version: (u8, u8)) -> Seq<char> {
    "0x"@ + zero_padded(decimal(version.0 as nat), 4) + zero_padded(decimal(version.1 as nat), 4)
}

/// The XML text of a manifest.
pub open spec fn manifest_xml(m: AndroidManifest) -> Seq<char> {
    let head = "<?xml version=\"1.0\" encoding=\"utf-8\"?>\n<manifest xmlns:android=\"http://schemas.android.com/apk/res/android\"\n        package=\""@ +
        m.package_name@ +
        "\"\n        android:versionCode=\""@ +
        decimal(m.version_code as nat) +
        "\"\n        android:versionName=\""@ +
        m.version_name@ +
        "\"\n        "@ +
        split_attr(m.split) +
        ">\n    <uses-sdk\n        android:targetSdkVersion=\""@ +
        decimal(m.target_sdk_version as nat) +
        "\"\n        android:minSdkVersion=\""@ +
        decimal(m.min_sdk_version as nat) +
        "\" />\n    <uses-feature android:glEsVersion=\""@ +
        opengles_text(m.opengles_version);
    let middle = head +
        "\" android:required=\"true\"></uses-feature>\n    "@ +
        join(m.features@.map_values(|f: Feature| feature_xml(f)), "\n"@) +
        "\n    "@ +
        join(m.permissions@.map_values(|p: Permission| permission_xml(p)), "\n"@) +
        "\n    <application\n            android:hasCode=\"false\"\n            android:label=\""@ +
        m.package_label@ +
        "\"\n            android:debuggable=\""@ +
        bool_text(m.debuggable) +
        "\"\n            "@ +
        icon_attr(m.icon) +
        "\n            "@ +
        fullscreen_attr(m.fullscreen) +
        ">\n            "@ +
        join(m.application_metadatas@.map_values(|a: ApplicationMetadata| metadata_xml(a.name@, a.value@)), "\n"@);
    middle +
        "\n        <activity\n                android:name=\"android.app.NativeActivity\"\n                android:label=\""@ +
        m.package_label@ +
        "\"\n                android:screenOrientation=\""@ +
        orientation_text(m.orientation) +
        "\"\n                android:configChanges=\"orientation|keyboardHidden|screenSize\">\n            <meta-data android:name=\"android.app.lib_name\" android:value=\""@ +
        m.target_name@ +
        "\" />\n            "@ +
        join(m.activity_metadatas@.map_values(|a: ActivityMetadata| metadata_xml(a.name@, a.value@)), "\n"@) +
        "\n            <intent-filter>\n                <action android:name=\"android.intent.action.MAIN\" />\n                <category android:name=\"android.intent.category.LAUNCHER\" />\n            </intent-filter>\n            "@ +
        join(m.intent_filters@.map_values(|i: IntentFilter| intent_filter_xml(i)), "\n"@) +
        "\n        </activity>\n    </application>\n</manifest>"@
}

fn push_split_attr(s: &mut String, split: &Option<String>)
    ensures final(s)@ == old(s)@ + split_attr(*split),
{
    match split {
        Some(v) => {
            s.append("split=\"");
            s.append(v.as_str());
            s.append("\" android:isFeatureSplit=\"true\"");
        },
        None => {},
    }
    assert(s@ =~= old(s)@ + split_attr(*split));
}

fn push_icon_attr(s: &mut String, icon: &Option<String>)
    ensures final(s)@ == old(s)@ + icon_attr(*icon),
{
    match icon {
        Some(v) => {
            s.append("android:icon=\"");
            s.append(v.as_str());
            s.append("\"");
        },
        None => {},
    }
    assert(s@ =~= old(s)@ + icon_attr(*icon));
}

fn fullscreen_str(fullscreen: bool) -> (r: &'static str)
    ensures r@ == fullscreen_attr(fullscreen),
{
    if fullscreen {
        "android:theme=\"@android:style/Theme.DeviceDefault.NoActionBar.Fullscreen\""
    } else {
        ""
    }
}

fn push_orientation(s: &mut String, orientation: &Option<String>)
    ensures final(s)@ == old(s)@ + orientation_text(*orientation),
{
    match orientation {
        Some(v) => s.append(v.as_str()),
        None => s.append("unspecified"),
    }
}

fn push_opengles(s: &mut String, version: (u8, u8))
    ensures final(s)@ == old(s)@ + opengles_text(version),
{
    s.append("0x");
    push_zero_padded(s, version.0 as u64, 4);
    push_zero_padded(s, version.1 as u64, 4);
    assert(s@ =~= old(s)@ + opengles_text(version));
}

fn features_xml_list(items: &Vec<Feature>) -> (r: Vec<String>)
    ensures r.deep_view() == items@.map_values(|f: Feature| feature_xml(f)),
{
    let mut r: Vec<String> = Vec::new();
    let mut k: usize = 0;
    while k < items.len()
        invariant
            k <= items.len(),
            r.deep_view() == items@.take(k as int).map_values(|f: Feature| feature_xml(f)),
        decreases items.len() - k,
    {
        let x = items[k].to_string();
        let ghost xv = x@;
        let ghost prev = r.deep_view();
        r.push(x);
        assert(r.deep_view() =~= prev.push(xv));
        assert(items@.take(k + 1).map_values(|f: Feature| feature_xml(f))
            =~= items@.take(k as int).map_values(|f: Feature| feature_xml(f)).push(xv));
        k = k + 1;
    }
    assert(items@.take(k as int) =~= items@);
    r
}

fn permissions_xml_list(items: &Vec<Permission>) -> (r: Vec<String>)
    ensures r.deep_view() == items@.map_values(|f: Permission| permission_xml(f)),
{
    let mut r: Vec<String> = Vec::new();
    let mut k: usize = 0;
    while k < items.len()
        invariant
            k <= items.len(),
            r.deep_view() == items@.take(k as int).map_values(|f: Permission| permission_xml(f)),
        decreases items.len() - k,
    {
        let x = items[k].to_string();
        let ghost xv = x@;
        let ghost prev = r.deep_view();
        r.push(x);
        assert(r.deep_view() =~= prev.push(xv));
        assert(items@.take(k + 1).map_values(|f: Permission| permission_xml(f))
            =~= items@.take(k as int).map_values(|f: Permission| permission_xml(f)).push(xv));
        k = k + 1;
    }
    assert(items@.take(k as int) =~= items@);
    r
}

fn application_metadatas_xml_list(items: &Vec<ApplicationMetadata>) -> (r: Vec<String>)
    ensures r.deep_view() == items@.map_values(|f: ApplicationMetadata| metadata_xml(f.name@, f.value@)),
{
    let mut r: Vec<String> = Vec::new();
    let mut k: usize = 0;
    while k < items.len()
        invariant
            k <= items.len(),
            r.deep_view() == items@.take(k as int).map_values(|f: ApplicationMetadata| metadata_xml(f.name@, f.value@)),
        decreases items.len() - k,
    {
        let x = items[k].to_string();
        let ghost xv = x@;
        let ghost prev = r.deep_view();
        r.push(x);
        assert(r.deep_view() =~= prev.push(xv));
        assert(items@.take(k + 1).map_values(|f: ApplicationMetadata| metadata_xml(f.name@, f.value@))
            =~= items@.take(k as int).map_values(|f: ApplicationMetadata| metadata_xml(f.name@, f.value@)).push(xv));
        k = k + 1;
    }
    assert(items@.take(k as int) =~= items@);
    r
}

fn activity_metadatas_xml_list(items: &Vec<ActivityMetadata>) -> (r: Vec<String>)
    ensures r.deep_view() == items@.map_values(|f: ActivityMetadata| metadata_xml(f.name@, f.value@)),
{
    let mut r: Vec<String> = Vec::new();
    let mut k: usize = 0;
    while k < items.len()
        invariant
            k <= items.len(),
            r.deep_view() == items@.take(k as int).map_values(|f: ActivityMetadata| metadata_xml(f.name@, f.value@)),
        decreases items.len() - k,
    {
        let x = items[k].to_string();
        let ghost xv = x@;
        let ghost prev = r.deep_view();
        r.push(x);
        assert(r.deep_view() =~= prev.push(xv));
        assert(items@.take(k + 1).map_values(|f: ActivityMetadata| metadata_xml(f.name@, f.value@))
            =~= items@.take(k as int).map_values(|f: ActivityMetadata| metadata_xml(f.name@, f.value@)).push(xv));
        k = k + 1;
    }
    assert(items@.take(k as int) =~= items@);
    r
}

fn intent_filters_xml_list(items: &Vec<IntentFilter>) -> (r: Vec<String>)
    ensures r.deep_view() == items@.map_values(|f: IntentFilter| intent_filter_xml(f)),
{
    let mut r: Vec<String> = Vec::new();
    let mut k: usize = 0;
    while k < items.len()
        invariant
            k <= items.len(),
            r.deep_view() == items@.take(k as int).map_values(|f: IntentFilter| intent_filter_xml(f)),
        decreases items.len() - k,
    {
        let x = items[k].to_string();
        let ghost xv = x@;
        let ghost prev = r.deep_view();
        r.push(x);
        assert(r.deep_view() =~= prev.push(xv));
        assert(items@.take(k + 1).map_values(|f: IntentFilter| intent_filter_xml(f))
            =~= items@.take(k as int).map_values(|f: IntentFilter| intent_filter_xml(f)).push(xv));
        k = k + 1;
    }
    assert(items@.take(k as int) =~= items@);
    r
}

impl Clone for AndroidManifest {
    fn clone(&self) -> (r: Self) {
        AndroidManifest {
            package_name: self.package_name.clone(),
            package_label: self.package_label.clone(),
            version_name: self.version_name.clone(),
            version_code: self.version_code,
            target_name: self.target_name.clone(),
            target_sdk_version: self.target_sdk_version,
            min_sdk_version: self.min_sdk_version,
            opengles_version: (self.opengles_version.0, self.opengles_version.1),
            features: self.features.clone(),
            permissions: self.permissions.clone(),
            intent_filters: self.intent_filters.clone(),
            icon: self.icon.clone(),
            fullscreen: self.fullscreen,
            orientation: self.orientation.clone(),
            debuggable: self.debuggable,
            split: self.split.clone(),
            application_metadatas: self.application_metadatas.clone(),
            activity_metadatas: self.activity_metadatas.clone(),
        }
    }
}

impl AndroidManifest {
    /// The text of `AndroidManifest.xml` for this manifest.
    #[verifier::rlimit(50)]
    pub fn to_string(&self) -> (r: String)
        ensures r@ == manifest_xml(*self),
    {
        let mut s = "<?xml version=\"1.0\" encoding=\"utf-8\"?>\n<manifest xmlns:android=\"http://schemas.android.com/apk/res/android\"\n        package=\"".to_owned();
        s.append(self.package_name.as_str());
        s.append("\"\n        android:versionCode=\"");
        push_decimal(&mut s, self.version_code as u64);
        s.append("\"\n        android:versionName=\"");
        s.append(self.version_name.as_str());
        s.append("\"\n        ");
        push_split_attr(&mut s, &self.split);
        s.append(">\n    <uses-sdk\n        android:targetSdkVersion=\"");
        push_decimal(&mut s, self.target_sdk_version as u64);
        s.append("\"\n        android:minSdkVersion=\"");
        push_decimal(&mut s, self.min_sdk_version as u64);
        s.append("\" />\n    <uses-feature android:glEsVersion=\"");
        push_opengles(&mut s, self.opengles_version);
        s.append("\" android:required=\"true\"></uses-feature>\n    ");
        s.append(join_strings(&features_xml_list(&self.features), "\n").as_str());
        s.append("\n    ");
        s.append(join_strings(&permissions_xml_list(&self.permissions), "\n").as_str());
        s.append("\n    <application\n            android:hasCode=\"false\"\n            android:label=\"");
        s.append(self.package_label.as_str());
        s.append("\"\n            android:debuggable=\"");
        s.append(bool_to_str(self.debuggable));
        s.append("\"\n            ");
        push_icon_attr(&mut s, &self.icon);
        s.append("\n            ");
        s.append(fullscreen_str(self.fullscreen));
        s.append(">\n            ");
        s.append(join_strings(&application_metadatas_xml_list(&self.application_metadatas), "\n").as_str());
        s.append("\n        <activity\n                android:name=\"android.app.NativeActivity\"\n                android:label=\"");
        s.append(self.package_label.as_str());
        s.append("\"\n                android:screenOrientation=\"");
        push_orientation(&mut s, &self.orientation);
        s.append("\"\n                android:configChanges=\"orientation|keyboardHidden|screenSize\">\n            <meta-data android:name=\"android.app.lib_name\" android:value=\"");
        s.append(self.target_name.as_str());
        s.append("\" />\n            ");
        s.append(join_strings(&activity_metadatas_xml_list(&self.activity_metadatas), "\n").as_str());
        s.append("\n            <intent-filter>\n                <action android:name=\"android.intent.action.MAIN\" />\n                <category android:name=\"android.intent.category.LAUNCHER\" />\n            </intent-filter>\n            ");
        s.append(join_strings(&intent_filters_xml_list(&self.intent_filters), "\n").as_str());
        s.append("\n        </activity>\n    </application>\n</manifest>");
        s
    }
}

/// What closes the activity, the application and the manifest.
pub open spec fn manifest_end() -> Seq<char> {
    "\n        </activity>\n    </application>\n</manifest>"@
}

/// The filter that makes the activity the launcher's entry point.
pub open spec fn launcher_filter() -> Seq<char> {
    "\n            <intent-filter>\n                <action android:name=\"android.intent.action.MAIN\" />\n                <category android:name=\"android.intent.category.LAUNCHER\" />\n            </intent-filter>\n            "@
}

/// The texts of the intent filters of `m`, in order.
pub open spec fn intent_filter_texts(m: AndroidManifest) -> Seq<Seq<char>> {
    m.intent_filters@.map_values(|i: IntentFilter| intent_filter_xml(i))
}

/// Where the configured intent filters start in the manifest text.
pub open spec fn intent_filters_start(m: AndroidManifest) -> int {
    manifest_xml(m).len() - manifest_end().len() - join(intent_filter_texts(m), "\n"@).len()
}

/// Every intent filter of the manifest is written, in order, inside the
/// activity: after the launcher's filter and before the activity closes,
/// each at its place in the list separated by line breaks.
#[verifier::rlimit(100)]
pub proof fn lemma_manifest_writes_every_intent_filter(m: AndroidManifest)
    ensures
        manifest_xml(m).len() >= manifest_end().len(),
        manifest_xml(m).subrange(manifest_xml(m).len() - manifest_end().len(), manifest_xml(m).len() as int)
            == manifest_end(),
        intent_filters_start(m) >= launcher_filter().len(),
        manifest_xml(m).subrange(intent_filters_start(m) - launcher_filter().len(), intent_filters_start(m))
            == launcher_filter(),
        forall|k: int| 0 <= k < m.intent_filters@.len() ==> {
            let at = intent_filters_start(m) + join_offset(intent_filter_texts(m), "\n"@, k as nat);
            &&& intent_filters_start(m) <= at
            &&& at + intent_filter_xml(m.intent_filters@[k]).len() <= manifest_xml(m).len() - manifest_end().len()
            &&& manifest_xml(m).subrange(at, at + intent_filter_xml(m.intent_filters@[k]).len())
                == intent_filter_xml(#[trigger] m.intent_filters@[k])
        },
{
    let t = manifest_xml(m);
    let xs = intent_filter_texts(m);
    let j = join(xs, "\n"@);
    let e = manifest_end();
    let l = launcher_filter();
    let before = t.subrange(0, t.len() - e.len() - j.len() - l.len());
    assert(t =~= before + l + j + e);
    assert(t.subrange(t.len() - e.len(), t.len() as int) =~= e);
    let b = intent_filters_start(m);
    assert(t.subrange(b - l.len(), b) =~= l);
    lemma_join_holds_items(xs, "\n"@);
    assert forall|k: int| 0 <= k < m.intent_filters@.len() implies {
        let at = b + join_offset(xs, "\n"@, k as nat);
        &&& b <= at
        &&& at + intent_filter_xml(m.intent_filters@[k]).len() <= t.len() - e.len()
        &&& t.subrange(at, at + intent_filter_xml(m.intent_filters@[k]).len())
            == intent_filter_xml(#[trigger] m.intent_filters@[k])
    } by {
        assert(xs[k] == intent_filter_xml(m.intent_filters@[k]));
        let o = join_offset(xs, "\n"@, k as nat);
        assert(j.subrange(o, o + xs[k].len()) == xs[k]);
        assert(t.subrange(b + o, b + o + xs[k].len()) =~= j.subrange(o, o + xs[k].len()));
    }
}

/// Adding an intent filter to a manifest writes its text at the end of the
/// activity, after a line break when filters were there before; the rest of
/// the text stays as it was.
#[verifier::rlimit(100)]
pub proof fn lemma_manifest_added_intent_filter(m: AndroidManifest, m2: AndroidManifest, f: IntentFilter)
    requires
        m2 == (AndroidManifest { intent_filters: m2.intent_filters, ..m }),
        m2.intent_filters@ == m.intent_filters@.push(f),
    ensures
        manifest_xml(m2) == manifest_xml(m).subrange(0, manifest_xml(m).len() - manifest_end().len())
            + (if m.intent_filters@.len() > 0 { "\n"@ } else { Seq::empty() })
            + intent_filter_xml(f) + manifest_end(),
        manifest_xml(m2) != manifest_xml(m),
{
    let t = manifest_xml(m);
    let xs = intent_filter_texts(m);
    let xs2 = intent_filter_texts(m2);
    assert(xs2 =~= xs.push(intent_filter_xml(f)));
    assert(xs2.drop_last() =~= xs);
    let j = join(xs, "\n"@);
    let j2 = join(xs2, "\n"@);
    let e = manifest_end();
    let sep: Seq<char> = if xs.len() > 0 { "\n"@ } else { Seq::empty() };
    if xs.len() > 0 {
        assert(j2 == j + "\n"@ + intent_filter_xml(f));
    } else {
        assert(j =~= Seq::<char>::empty());
        assert(j2 == intent_filter_xml(f));
    }
    let head = t.subrange(0, t.len() - e.len() - j.len());
    assert(t =~= head + j + e);
    assert(manifest_xml(m2) =~= head + j2 + e);
    assert(t.subrange(0, t.len() - e.len()) =~= head + j);
    assert(manifest_xml(m2) =~= t.subrange(0, t.len() - e.len()) + sep + intent_filter_xml(f) + e);
    lemma_intent_filter_text_not_empty(f);
    assert(manifest_xml(m2).len() > t.len());
}

proof fn lemma_intent_filter_text_not_empty(f: IntentFilter)
    ensures
        intent_filter_xml(f).len() > 0,
{
    reveal_strlit("<intent-filter>\n                \t");
}

/// Every feature, permission and metadata entry of the manifest, and every
/// intent filter, is written in its text.
#[verifier::rlimit(100)]
pub proof fn lemma_manifest_writes_every_entry(m: AndroidManifest)
    ensures
        forall|k: int| 0 <= k < m.features@.len()
            ==> occurs_in(manifest_xml(m), feature_xml(#[trigger] m.features@[k])),
        forall|k: int| 0 <= k < m.permissions@.len()
            ==> occurs_in(manifest_xml(m), permission_xml(#[trigger] m.permissions@[k])),
        forall|k: int| 0 <= k < m.application_metadatas@.len()
            ==> occurs_in(manifest_xml(m), metadata_xml(#[trigger] m.application_metadatas@[k].name@, m.application_metadatas@[k].value@)),
        forall|k: int| 0 <= k < m.activity_metadatas@.len()
            ==> occurs_in(manifest_xml(m), metadata_xml(#[trigger] m.activity_metadatas@[k].name@, m.activity_metadatas@[k].value@)),
        forall|k: int| 0 <= k < m.intent_filters@.len()
            ==> occurs_in(manifest_xml(m), intent_filter_xml(#[trigger] m.intent_filters@[k])),
{
    broadcast use lemma_occurs_in_concat;
    let fs = m.features@.map_values(|f: Feature| feature_xml(f));
    let ps = m.permissions@.map_values(|p: Permission| permission_xml(p));
    let ams = m.application_metadatas@.map_values(|a: ApplicationMetadata| metadata_xml(a.name@, a.value@));
    let acs = m.activity_metadatas@.map_values(|a: ActivityMetadata| metadata_xml(a.name@, a.value@));
    let ifs = intent_filter_texts(m);
    lemma_join_items_occur(fs, "\n"@);
    lemma_join_items_occur(ps, "\n"@);
    lemma_join_items_occur(ams, "\n"@);
    lemma_join_items_occur(acs, "\n"@);
    lemma_join_items_occur(ifs, "\n"@);
    assert forall|k: int| 0 <= k < m.features@.len()
        implies occurs_in(manifest_xml(m), feature_xml(#[trigger] m.features@[k])) by {
        assert(fs[k] == feature_xml(m.features@[k]));
    }
    assert forall|k: int| 0 <= k < m.permissions@.len()
        implies occurs_in(manifest_xml(m), permission_xml(#[trigger] m.permissions@[k])) by {
        assert(ps[k] == permission_xml(m.permissions@[k]));
    }
    assert forall|k: int| 0 <= k < m.application_metadatas@.len()
        implies occurs_in(manifest_xml(m), metadata_xml(#[trigger] m.application_metadatas@[k].name@, m.application_metadatas@[k].value@)) by {
        assert(ams[k] == metadata_xml(m.application_metadatas@[k].name@, m.application_metadatas@[k].value@));
    }
    assert forall|k: int| 0 <= k < m.activity_metadatas@.len()
        implies occurs_in(manifest_xml(m), metadata_xml(#[trigger] m.activity_metadatas@[k].name@, m.activity_metadatas@[k].value@)) by {
        assert(acs[k] == metadata_xml(m.activity_metadatas@[k].name@, m.activity_metadatas@[k].value@));
    }
    assert forall|k: int| 0 <= k < m.intent_filters@.len()
        implies occurs_in(manifest_xml(m), intent_filter_xml(#[trigger] m.intent_filters@[k])) by {
        assert(ifs[k] == intent_filter_xml(m.intent_filters@[k]));
    }
}

} // verus!
