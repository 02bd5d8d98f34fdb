//! The installed-application catalog: turning the OS profiler's XML plist
//! report into the list of applications the launcher can offer.
//!
//! The surrounding process invokes the profiler tool and hands the raw bytes
//! of its report here; everything after that — text validation, the plist
//! parse (through the `plist` crate), walking the parsed tree, and deriving
//! display names — happens in this module, and each failing stage is
//! surfaced as its own error.

use vstd::prelude::*;
use vstd::string::StrSliceExecFns;
use vstd::string::StringExecFns;
use vstd::utf8::valid_utf8;

verus! {

/// A parsed plist node, reduced to the shape the catalog walk reads: arrays,
/// dictionaries in stored key order, and strings. Every other node kind is
/// never inspected and collapses to `Other`.
pub enum PNode {
    Array(Vec<PNode>),
    Dict(Vec<(String, PNode)>),
    Text(String),
    Other,
}

/// The value stored under the first entry of `entries` whose key is `key`,
/// searched from index `i` onward. Parsed dictionaries hold each key once,
/// so the first match is the only one.
pub open spec fn dict_get(entries: Seq<(String, PNode)>, key: Seq<char>, i: int) -> Option<PNode>
    decreases entries.len() - i,
{
    if i < 0 || i >= entries.len() {
        None
    } else if entries[i].0@ == key {
        Some(entries[i].1)
    } else {
        dict_get(entries, key, i + 1)
    }
}

fn dict_get_exec<'a>(entries: &'a Vec<(String, PNode)>, key: &String) -> (res: Option<&'a PNode>)
    ensures
        match res {
            Some(v) => dict_get(entries@, key@, 0) == Some(*v),
            None => dict_get(entries@, key@, 0) is None,
        },
{
    let n = entries.len();
    let mut i: usize = 0;
    while i < n
        invariant
            n == entries@.len(),
            0 <= i <= n,
            dict_get(entries@, key@, 0) == dict_get(entries@, key@, i as int),
        decreases n - i,
    {
        if entries[i].0 == *key {
            return Some(&entries[i].1);
        }
        i = i + 1;
    }
    None
}

/// The last index at or after `from` where `c` occurs in `s`.
pub open spec fn last_index_in(s: Seq<char>, c: char, from: int) -> Option<int>
    decreases s.len(),
{
    if s.len() == 0 || s.len() <= from {
        None
    } else if s.last() == c {
        Some(s.len() - 1)
    } else {
        last_index_in(s.drop_last(), c, from)
    }
}

/// The sentinel display name for entries whose name cannot be derived.
pub open spec fn unknown_name() -> Seq<char> {
    "Unknown"@
}

/// The display name derived from a path: its final segment (the part after
/// the last separator) with the extension after the segment's last interior
/// dot stripped. An empty final segment and the bare `.` and `..` segments
/// carry no name and yield the `Unknown` sentinel; a leading dot alone, as
/// in a hidden file's name, is not an extension separator.
pub open spec fn spec_display_name(path: Seq<char>) -> Seq<char> {
    let seg_start = match last_index_in(path, '/', 0) {
        Some(k) => k + 1,
        None => 0,
    };
    let seg = path.subrange(seg_start, path.len() as int);
    if seg.len() == 0 {
        unknown_name()
    } else if seg.len() == 1 && seg[0] == '.' {
        unknown_name()
    } else if seg.len() == 2 && seg[0] == '.' && seg[1] == '.' {
        unknown_name()
    } else {
        match last_index_in(seg, '.', 1) {
            Some(j) => seg.subrange(0, j),
            None => seg,
        }
    }
}

/// Derives a display name from a path, per [`spec_display_name`].
pub fn display_name_from_path(path: &str) -> (res: String)
    ensures
        res@ == spec_display_name(path@),
{
    let n = path.unicode_len();
    let mut seg_start: usize = 0;
    let mut i: usize = 0;
    while i < n
        invariant
            n == path@.len(),
            0 <= i <= n,
            seg_start <= i,
            match last_index_in(path@.subrange(0, i as int), '/', 0) {
                Some(k) => seg_start == k + 1,
                None => seg_start == 0,
            },
        decreases n - i,
    {
        proof {
            assert(path@.subrange(0, i + 1).drop_last() =~= path@.subrange(0, i as int));
        }
        if path.get_char(i) == '/' {
            seg_start = i + 1;
        }
        i = i + 1;
    }
    proof {
        assert(path@.subrange(0, n as int) =~= path@);
    }
    let ghost seg = path@.subrange(seg_start as int, n as int);
    let seg_len = n - seg_start;
    if seg_len == 0 {
        return String::from_str("Unknown");
    }
    if seg_len == 1 && path.get_char(seg_start) == '.' {
        return String::from_str("Unknown");
    }
    if seg_len == 2 && path.get_char(seg_start) == '.' && path.get_char(seg_start + 1) == '.' {
        return String::from_str("Unknown");
    }
    let mut dot: Option<usize> = None;
    let mut j: usize = seg_start;
    while j < n
        invariant
            n == path@.len(),
            seg_start <= j <= n,
            seg_start < n,
            seg == path@.subrange(seg_start as int, n as int),
            match last_index_in(
                path@.subrange(seg_start as int, j as int),
                '.',
                1,
            ) {
                Some(k) => dot matches Some(d) && seg_start + k == d && seg_start < d < n,
                None => dot is None,
            },
        decreases n - j,
    {
        proof {
            assert(path@.subrange(seg_start as int, j + 1).drop_last() =~= path@.subrange(
                seg_start as int,
                j as int,
            ));
        }
        if j > seg_start && path.get_char(j) == '.' {
            dot = Some(j);
        }
        j = j + 1;
    }
    match dot {
        Some(d) => {
            let stem = path.substring_char(seg_start, d);
            proof {
                assert(stem@ =~= seg.subrange(0, d - seg_start));
            }
            String::from_str(stem)
        },
        None => {
            let stem = path.substring_char(seg_start, n);
            proof {
                assert(stem@ =~= seg);
            }
            String::from_str(stem)
        },
    }
}

/// One installed application, as the catalog reports it.
pub struct AppInfo {
    pub name: String,
    pub bundle_id: Option<String>,
    pub path: Option<String>,
    pub version: Option<String>,
}

/// The mathematical value of an [`AppInfo`].
pub struct AppInfoV {
    pub name: Seq<char>,
    pub bundle_id: Option<Seq<char>>,
    pub path: Option<Seq<char>>,
    pub version: Option<Seq<char>>,
}

impl View for AppInfo {
    type V = AppInfoV;

    open spec fn view(&self) -> AppInfoV {
        AppInfoV {
            name: self.name@,
            bundle_id: match self.bundle_id {
                Some(b) => Some(b@),
                None => None,
            },
            path: match self.path {
                Some(p) => Some(p@),
                None => None,
            },
            version: match self.version {
                Some(v) => Some(v@),
                None => None,
            },
        }
    }
}

impl DeepView for AppInfo {
    type V = AppInfoV;

    open spec fn deep_view(&self) -> AppInfoV {
        self.view()
    }
}

/// The string stored under `key`, when the dictionary holds one there;
/// nothing when the key is absent or holds a non-string node.
pub open spec fn spec_field_string(entries: Seq<(String, PNode)>, key: Seq<char>) -> Option<
    Seq<char>,
> {
    match dict_get(entries, key, 0) {
        Some(PNode::Text(s)) => Some(s@),
        _ => None,
    }
}

fn field_string(entries: &Vec<(String, PNode)>, key: &String) -> (res: Option<String>)
    ensures
        match res {
            Some(s) => spec_field_string(entries@, key@) == Some(s@),
            None => spec_field_string(entries@, key@) is None,
        },
{
    match dict_get_exec(entries, key) {
        Some(node) => match node {
            PNode::Text(s) => Some(s.clone()),
            _ => None,
        },
        None => None,
    }
}

/// The display name of one application dictionary: its `name` field when
/// that is a string; else the name derived from its `path` field; else the
/// `Unknown` sentinel.
pub open spec fn spec_app_name(entries: Seq<(String, PNode)>) -> Seq<char> {
    match spec_field_string(entries, "name"@) {
        Some(n) => n,
        None => match spec_field_string(entries, "path"@) {
            Some(p) => spec_display_name(p),
            None => unknown_name(),
        },
    }
}

/// The application record that one parsed dictionary denotes.
pub open spec fn spec_app_of_dict(entries: Seq<(String, PNode)>) -> AppInfoV {
    AppInfoV {
        name: spec_app_name(entries),
        bundle_id: spec_field_string(entries, "bundle_identifier"@),
        path: spec_field_string(entries, "path"@),
        version: spec_field_string(entries, "version"@),
    }
}

fn app_info_of_dict(entries: &Vec<(String, PNode)>) -> (res: AppInfo)
    ensures
        res@ == spec_app_of_dict(entries@),
{
    let key_name = String::from_str("name");
    let key_path = String::from_str("path");
    let key_bundle = String::from_str("bundle_identifier");
    let key_version = String::from_str("version");
    let name = match field_string(entries, &key_name) {
        Some(n) => n,
        None => match field_string(entries, &key_path) {
            Some(p) => display_name_from_path(p.as_str()),
            None => String::from_str("Unknown"),
        },
    };
    AppInfo {
        name,
        bundle_id: field_string(entries, &key_bundle),
        path: field_string(entries, &key_path),
        version: field_string(entries, &key_version),
    }
}

/// The records contributed by one `_items` array, in stored order; entries
/// that are not dictionaries are skipped.
pub open spec fn apps_of_app_items(apps: Seq<PNode>) -> Seq<AppInfoV>
    decreases apps.len(),
{
    if apps.len() == 0 {
        Seq::empty()
    } else {
        apps_of_app_items(apps.drop_last()) + (match apps.last() {
            PNode::Dict(d) => seq![spec_app_of_dict(d@)],
            _ => Seq::<AppInfoV>::empty(),
        })
    }
}

/// The records contributed by one top-level report item: the applications
/// under its `_items` key when the item is a dictionary holding an array
/// there, and none otherwise.
pub open spec fn apps_of_item(item: PNode) -> Seq<AppInfoV> {
    match item {
        PNode::Dict(d) => match dict_get(d@, "_items"@, 0) {
            Some(PNode::Array(v)) => apps_of_app_items(v@),
            _ => Seq::empty(),
        },
        _ => Seq::empty(),
    }
}

/// All records of the report, item by item in stored order.
pub open spec fn apps_of_items(items: Seq<PNode>) -> Seq<AppInfoV>
    decreases items.len(),
{
    if items.len() == 0 {
        Seq::empty()
    } else {
        apps_of_items(items.drop_last()) + apps_of_item(items.last())
    }
}

/// The applications a parsed report lists, or nothing when the report's
/// root is not the expected array of dictionaries.
pub open spec fn spec_extract(root: PNode) -> Option<Seq<AppInfoV>> {
    match root {
        PNode::Array(items) => Some(apps_of_items(items@)),
        _ => None,
    }
}

/// Why listing the installed applications failed: exactly one stage, so the
/// UI can tell a missing OS tool from malformed output.
pub enum CatalogError {
    /// The catalog query process could not be invoked.
    Invocation(String),
    /// The query's output was not valid text.
    Encoding(String),
    /// The query's output was not a plist of the expected shape.
    Parse(String),
}

impl CatalogError {
    /// The single descriptive line surfaced to the UI, naming the stage
    /// that failed.
    pub open spec fn spec_message(&self) -> Seq<char> {
        match self {
            CatalogError::Invocation(e) => "Failed to run system_profiler: "@ + e@,
            CatalogError::Encoding(e) => "Invalid UTF-8 data: "@ + e@,
            CatalogError::Parse(e) => "Failed to parse plist: "@ + e@,
        }
    }

    /// The single descriptive line surfaced to the UI, naming the stage
    /// that failed.
    pub fn message(&self) -> (res: String)
        ensures
            res@ == self.spec_message(),
    {
        match self {
            CatalogError::Invocation(e) => String::from_str(
                "Failed to run system_profiler: ",
            ).concat(e.as_str()),
            CatalogError::Encoding(e) => String::from_str("Invalid UTF-8 data: ").concat(
                e.as_str(),
            ),
            CatalogError::Parse(e) => String::from_str("Failed to parse plist: ").concat(
                e.as_str(),
            ),
        }
    }
}

/// Walks a parsed report and collects its application records: one per
/// dictionary under each item's `_items` array. Fails only when the root is
/// not an array.
pub fn extract_apps(root: &PNode) -> (res: Result<Vec<AppInfo>, CatalogError>)
    ensures
        match spec_extract(*root) {
            Some(apps) => res matches Ok(v) && v.deep_view() == apps,
            None => res matches Err(CatalogError::Parse(m)) && m@ == "Unexpected plist format"@,
        },
{
    match root {
        PNode::Array(items) => {
            let mut acc: Vec<AppInfo> = Vec::new();
            let n = items.len();
            let mut i: usize = 0;
            proof {
                assert(acc.deep_view() =~= apps_of_items(items@.subrange(0, 0)));
            }
            while i < n
                invariant
                    n == items@.len(),
                    0 <= i <= n,
                    acc.deep_view() == apps_of_items(items@.subrange(0, i as int)),
                decreases n - i,
            {
                proof {
                    assert(items@.subrange(0, i + 1).drop_last() =~= items@.subrange(0, i as int));
                }
                let ghost acc0 = acc.deep_view();
                match &items[i] {
                    PNode::Dict(d) => {
                        let key_items = String::from_str("_items");
                        match dict_get_exec(d, &key_items) {
                            Some(node) => match node {
                                PNode::Array(apps) => {
                                    let m = apps.len();
                                    let mut j: usize = 0;
                                    while j < m
                                        invariant
                                            m == apps@.len(),
                                            0 <= j <= m,
                                            acc.deep_view() == acc0 + apps_of_app_items(
                                                apps@.subrange(0, j as int),
                                            ),
                                        decreases m - j,
                                    {
                                        proof {
                                            assert(apps@.subrange(0, j + 1).drop_last()
                                                =~= apps@.subrange(0, j as int));
                                        }
                                        let ghost accj = acc.deep_view();
                                        match &apps[j] {
                                            PNode::Dict(ad) => {
                                                let info = app_info_of_dict(ad);
                                                acc.push(info);
                                                proof {
                                                    assert(acc.deep_view() =~= accj.push(
                                                        spec_app_of_dict(ad@),
                                                    ));
                                                    assert(acc.deep_view() =~= acc0
                                                        + apps_of_app_items(
                                                        apps@.subrange(0, j + 1),
                                                    ));
                                                }
                                            },
                                            _ => {
                                                proof {
                                                    assert(acc.deep_view() =~= acc0
                                                        + apps_of_app_items(
                                                        apps@.subrange(0, j + 1),
                                                    ));
                                                }
                                            },
                                        }
                                        j = j + 1;
                                    }
                                    proof {
                                        assert(apps@.subrange(0, m as int) =~= apps@);
                                        assert(acc.deep_view() =~= acc0 + apps_of_item(
                                            items@[i as int],
                                        ));
                                    }
                                },
                                _ => {
                                    proof {
                                        assert(acc.deep_view() =~= acc0 + apps_of_item(
                                            items@[i as int],
                                        ));
                                    }
                                },
                            },
                            None => {
                                proof {
                                    assert(acc.deep_view() =~= acc0 + apps_of_item(
                                        items@[i as int],
                                    ));
                                }
                            },
                        }
                    },
                    _ => {
                        proof {
                            assert(acc.deep_view() =~= acc0 + apps_of_item(items@[i as int]));
                        }
                    },
                }
                i = i + 1;
            }
            proof {
                assert(items@.subrange(0, n as int) =~= items@);
            }
            Ok(acc)
        },
        _ => Err(CatalogError::Parse(String::from_str("Unexpected plist format"))),
    }
}

/// What parsing the report bytes as an XML plist yields: the converted tree
/// on success, nothing on a parse error. Parsing is a function of the bytes
/// alone.
pub uninterp spec fn parsed_catalog(xml: Seq<u8>) -> Option<PNode>;

#[verifier::external_type_specification]
#[verifier::external_body]
pub struct ExPlistValue(plist::Value);

/// Converts a parsed plist value, node for node, into the tree shape the
/// catalog walk reads; node kinds the walk never inspects collapse to
/// [`PNode::Other`].
#[verifier::external_body]
fn convert_node(v: plist::Value) -> PNode {
    match v {
        plist::Value::Array(items) => PNode::Array(items.into_iter().map(convert_node).collect()),
        plist::Value::Dictionary(d) => PNode::Dict(
            d.into_iter().map(|(k, val)| (k, convert_node(val))).collect(),
        ),
        plist::Value::String(s) => PNode::Text(s),
        _ => PNode::Other,
    }
}

/// Relies on `plist::Value::from_reader_xml`: reading an XML plist from a
/// byte slice is a function of the bytes alone; the parsed value is handed
/// back converted node for node, and a parse failure carries the parser's
/// message.
#[verifier::external_body]
fn parse_catalog_xml(xml: &Vec<u8>) -> (res: Result<PNode, String>)
    ensures
        res matches Ok(v) ==> parsed_catalog(xml@) == Some(v),
        res matches Err(_) ==> parsed_catalog(xml@) is None,
{
    match plist::Value::from_reader_xml(xml.as_slice()) {
        Ok(v) => Ok(convert_node(v)),
        Err(e) => Err(e.to_string()),
    }
}

/// Relies on `core::str::from_utf8`: it succeeds exactly on UTF-8 valid
/// bytes, and its error carries the standard library's description.
#[verifier::external_body]
fn check_utf8(bytes: &Vec<u8>) -> (res: Result<(), String>)
    ensures
        res is Ok <==> valid_utf8(bytes@),
{
    match core::str::from_utf8(bytes.as_slice()) {
        Ok(_) => Ok(()),
        Err(e) => Err(e.to_string()),
    }
}

/// Exactly what [`list_installed_apps`] returns for a given query outcome:
/// an invocation failure echoes the caller's message; bytes that are not
/// text fail the encoding stage; bytes that are not a well-formed plist, or
/// whose root is not an array, fail the parse stage; and otherwise the
/// result lists every application record of the report.
pub open spec fn catalog_post(
    invocation: Result<Vec<u8>, String>,
    res: Result<Vec<AppInfo>, CatalogError>,
) -> bool {
    match invocation {
        Err(e) => match res {
            Err(CatalogError::Invocation(m)) => m@ == e@,
            _ => false,
        },
        Ok(bytes) => {
            if !valid_utf8(bytes@) {
                match res {
                    Err(CatalogError::Encoding(_)) => true,
                    _ => false,
                }
            } else {
                match parsed_catalog(bytes@) {
                    None => match res {
                        Err(CatalogError::Parse(_)) => true,
                        _ => false,
                    },
                    Some(root) => match spec_extract(root) {
                        Some(apps) => match res {
                            Ok(v) => v.deep_view() == apps,
                            _ => false,
                        },
                        None => match res {
                            Err(CatalogError::Parse(m)) => m@ == "Unexpected plist format"@,
                            _ => false,
                        },
                    },
                }
            }
        },
    }
}

/// Turns the catalog query's outcome — the raw bytes the profiler tool
/// printed, or the failure to invoke it — into the list of installed
/// applications. Each stage fails on its own: an invocation failure echoes
/// the caller's message, bytes that are not text fail the encoding stage,
/// bytes that are not a well-formed plist of the expected shape fail the
/// parse stage, and otherwise every application record of the report is
/// returned.
pub fn list_installed_apps(invocation: Result<Vec<u8>, String>) -> (res: Result<
    Vec<AppInfo>,
    CatalogError,
>)
    ensures
        catalog_post(invocation, res),
{
    match invocation {
        Err(e) => Err(CatalogError::Invocation(e)),
        Ok(bytes) => match check_utf8(&bytes) {
            Err(e) => Err(CatalogError::Encoding(e)),
            Ok(()) => match parse_catalog_xml(&bytes) {
                Err(e) => Err(CatalogError::Parse(e)),
                Ok(root) => extract_apps(&root),
            },
        },
    }
}

} // verus!
