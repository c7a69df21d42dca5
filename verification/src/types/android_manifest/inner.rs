//! Elements of the generated `AndroidManifest.xml`.
use vstd::prelude::*;
use crate::text::{bool_text, bool_to_str, decimal, push_decimal};

verus! {

/// A `<uses-feature>` element.
#[derive(Debug, Clone)]
pub struct Feature {
    pub name: String,
    pub required: bool,
}

/// The XML of a feature.
pub open spec fn feature_xml(f: Feature) -> Seq<char> {
    "<uses-feature android:name=\""@ + f.name@ + "\" android:required=\""@ + bool_text(f.required) + "\"/>"@
}

impl Feature {
    /// The `<uses-feature>` element.
    pub fn to_string(&self) -> (r: String)
        ensures r@ == feature_xml(*self),
    {
        let mut s = "<uses-feature android:name=\"".to_owned();
        s.append(self.name.as_str());
        s.append("\" android:required=\"");
        s.append(bool_to_str(self.required));
        s.append("\"/>");
        s
    }
}

/// A `<meta-data>` element of the application.
#[derive(Debug, Clone)]
pub struct ApplicationMetadata {
    pub name: String,
    pub value: String,
}

/// The XML of a `<meta-data>` element with the given name and value.
pub open spec fn metadata_xml(name: Seq<char>, value: Seq<char>) -> Seq<char> {
    "<meta-data android:name=\""@ + name + "\" android:value=\""@ + value + "\"/>"@
}

fn metadata_to_string(name: &str, value: &str) -> (r: String)
    ensures r@ == metadata_xml(name@, value@),
{
    let mut s = "<meta-data android:name=\"".to_owned();
    s.append(name);
    s.append("\" android:value=\"");
    s.append(value);
    s.append("\"/>");
    s
}

impl ApplicationMetadata {
    /// The `<meta-data>` element.
    pub fn to_string(&self) -> (r: String)
        ensures r@ == metadata_xml(self.name@, self.value@),
    {
        metadata_to_string(self.name.as_str(), self.value.as_str())
    }
}

/// A `<meta-data>` element of the activity.
#[derive(Debug, Clone)]
pub struct ActivityMetadata {
    pub name: String,
    pub value: String,
}

impl ActivityMetadata {
    /// The `<meta-data>` element.
    pub fn to_string(&self) -> (r: String)
        ensures r@ == metadata_xml(self.name@, self.value@),
    {
        metadata_to_string(self.name.as_str(), self.value.as_str())
    }
}

/// A `<uses-permission>` element.
#[derive(Debug, Clone)]
pub struct Permission {
    pub name: String,
    pub max_sdk_version: Option<u32>,
}

/// The XML of a permission.
pub open spec fn permission_xml(p: Permission) -> Seq<char> {
    let max_sdk_version = match p.max_sdk_version {
        Some(v) => "android:maxSdkVersion=\""@ + decimal(v as nat) + "\""@,
        None => Seq::empty(),
    };
    "<uses-permission android:name=\""@ + p.name@ + "\" "@ + max_sdk_version + "/>"@
}

impl Permission {
    /// The `<uses-permission>` element.
    pub fn to_string(&self) -> (r: String)
        ensures r@ == permission_xml(*self),
    {
        let mut s = "<uses-permission android:name=\"".to_owned();
        s.append(self.name.as_str());
        s.append("\" ");
        let ghost before = s@;
        match self.max_sdk_version {
            Some(v) => {
                s.append("android:maxSdkVersion=\"");
                push_decimal(&mut s, v as u64);
                s.append("\"");
            },
            None => {},
        }
        assert(s@ =~= before + match self.max_sdk_version {
            Some(v) => "android:maxSdkVersion=\""@ + decimal(v as nat) + "\""@,
            None => Seq::empty(),
        });
        s.append("/>");
        s
    }
}

/// A `<data>` element of an intent filter.
#[derive(Debug, Clone)]
pub struct IntentFilterData {
    pub scheme: Option<String>,
    pub host: Option<String>,
    pub prefix: Option<String>,
}

/// ` attribute="value"` when there is a value, nothing otherwise.
pub open spec fn opt_attr(attr: Seq<char>, value: Option<String>) -> Seq<char> {
    match value {
        Some(v) => attr + v@ + "\""@,
        None => Seq::empty(),
    }
}

fn push_opt_attr(s: &mut String, attr: &str, value: &Option<String>)
    ensures final(s)@ == old(s)@ + opt_attr(attr@, *value),
{
    match value {
        Some(v) => {
            s.append(attr);
            s.append(v.as_str());
            s.append("\"");
        },
        None => {},
    }
    assert(s@ =~= old(s)@ + opt_attr(attr@, *value));
}

/// The XML of the data of an intent filter.
pub open spec fn intent_filter_data_xml(d: IntentFilterData) -> Seq<char> {
    "<data "@ + opt_attr(" android:scheme=\""@, d.scheme) + " "@ + opt_attr(" android:host=\""@, d.host) + " "@
        + opt_attr(" android:pathPrefix=\""@, d.prefix) + "/>"@
}

impl IntentFilterData {
    /// The `<data>` element.
    pub fn to_string(&self) -> (r: String)
        ensures r@ == intent_filter_data_xml(*self),
    {
        let mut s = "<data ".to_owned();
        push_opt_attr(&mut s, " android:scheme=\"", &self.scheme);
        s.append(" ");
        push_opt_attr(&mut s, " android:host=\"", &self.host);
        s.append(" ");
        push_opt_attr(&mut s, " android:pathPrefix=\"", &self.prefix);
        s.append("/>");
        s
    }
}

/// An `<intent-filter>` element.
#[derive(Debug, Clone)]
pub struct IntentFilter {
    pub name: String,
    pub categories: Vec<String>,
    pub data: Vec<IntentFilterData>,
}

/// The `<category>` elements of the categories, one after the other.
pub open spec fn categories_xml(categories: Seq<Seq<char>>) -> Seq<char>
    decreases categories.len(),
{
    if categories.len() == 0 {
        Seq::empty()
    } else {
        categories_xml(categories.drop_last()) + "<category android:name=\""@ + categories.last() + "\"/>"@
    }
}

/// The `<data>` elements, one after the other.
pub open spec fn data_xml(data: Seq<IntentFilterData>) -> Seq<char>
    decreases data.len(),
{
    if data.len() == 0 {
        Seq::empty()
    } else {
        data_xml(data.drop_last()) + intent_filter_data_xml(data.last())
    }
}

/// The XML of an intent filter.
pub open spec fn intent_filter_xml(i: IntentFilter) -> Seq<char> {
    "<intent-filter>\n                \t"@ + categories_xml(i.categories.deep_view()) + "\n                \t"@
        + data_xml(i.data@) + "\n                \t<action android:name=\""@ + i.name@
        + "\"/>\n                </intent-filter>"@
}

impl IntentFilter {
    /// The `<intent-filter>` element.
    pub fn to_string(&self) -> (r: String)
        ensures r@ == intent_filter_xml(*self),
    {
        let mut categories = String::new();
        let mut k: usize = 0;
        while k < self.categories.len()
            invariant
                k <= self.categories.len(),
                categories@ == categories_xml(self.categories.deep_view().take(k as int)),
            decreases self.categories.len() - k,
        {
            categories.append("<category android:name=\"");
            categories.append(self.categories[k].as_str());
            categories.append("\"/>");
            k = k + 1;
            assert(self.categories.deep_view().take(k as int).drop_last()
                =~= self.categories.deep_view().take(k - 1));
            assert(categories@ =~= categories_xml(self.categories.deep_view().take(k as int)));
        }
        assert(self.categories.deep_view().take(k as int) =~= self.categories.deep_view());
        let mut data = String::new();
        let mut j: usize = 0;
        while j < self.data.len()
            invariant
                j <= self.data.len(),
                data@ == data_xml(self.data@.take(j as int)),
            decreases self.data.len() - j,
        {
            let d = self.data[j].to_string();
            data.append(d.as_str());
            j = j + 1;
            assert(self.data@.take(j as int).drop_last() =~= self.data@.take(j - 1));
            assert(data@ =~= data_xml(self.data@.take(j as int)));
        }
        assert(self.data@.take(j as int) =~= self.data@);
        let mut s = "<intent-filter>\n                \t".to_owned();
        s.append(categories.as_str());
        s.append("\n                \t");
        s.append(data.as_str());
        s.append("\n                \t<action android:name=\"");
        s.append(self.name.as_str());
        s.append("\"/>\n                </intent-filter>");
        s
    }
}

} // verus!
