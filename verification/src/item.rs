use crate::errors::PipelineError;
use crate::json::{
    item_original_url, item_page_count, item_restrict, item_title, json_ok, spec_item_original_url,
    spec_item_page_count, spec_item_restrict, spec_item_title, spec_json_ok,
};
use crate::text::{
    last_segment, replace_all, spec_decimal, spec_last_segment, spec_replace, u64_to_decimal,
};
use vstd::prelude::*;
use vstd::string::*;

verus! {

/// Typed metadata of one item, after defaulting: its title, how many
/// assets it has, whether it is restricted, and the first-page URL
/// template its asset URLs derive from.
#[derive(PartialEq, Eq, Clone, Debug)]
pub struct ItemMetadata {
    pub title: String,
    pub asset_count: usize,
    pub restricted: bool,
    pub template: String,
}

impl ItemMetadata {
    /// An item always owns at least one asset.
    pub open spec fn wf(self) -> bool {
        self.asset_count >= 1
    }
}

/// One asset to download: where its bytes come from and where they go.
#[derive(PartialEq, Eq, Clone, Debug)]
pub struct AssetDescriptor {
    pub source_url: String,
    pub dest_path: String,
}

/// The title after defaulting: the document's title, or "untitled".
pub open spec fn spec_title_of(body: Seq<char>) -> Seq<char> {
    match spec_item_title(body) {
        Some(t) => t,
        None => "untitled"@,
    }
}

/// The restriction flag after defaulting: set exactly when the
/// document's restriction code equals the adult-content value 1.
pub open spec fn spec_restricted_of(body: Seq<char>) -> bool {
    match spec_item_restrict(body) {
        Some(x) => x == 1,
        None => false,
    }
}

/// The asset count after defaulting: the document's page count, or 1
/// when absent.
pub open spec fn spec_count_of(body: Seq<char>) -> int {
    match spec_item_page_count(body) {
        Some(c) => c as int,
        None => 1,
    }
}

/// Parses one item-endpoint response body into typed metadata, with
/// defaults for absent fields. Rejects a body that is not JSON, one
/// without an asset URL template, and a page count outside [1, usize::MAX].
pub fn metadata_from_body(body: &str) -> (r: Result<ItemMetadata, PipelineError>)
    ensures
        match r {
            Ok(m) => spec_json_ok(body@) && m.wf() && m.title@ == spec_title_of(body@)
                && m.restricted == spec_restricted_of(body@) && spec_item_original_url(body@)
                == Some(m.template@) && 1 <= spec_count_of(body@) <= usize::MAX && m.asset_count
                == spec_count_of(body@),
            Err(e) => e == PipelineError::Parse && (!spec_json_ok(body@) || spec_item_original_url(
                body@,
            ) is None || spec_count_of(body@) < 1 || spec_count_of(body@) > usize::MAX),
        },
{
    if !json_ok(body) {
        return Err(PipelineError::Parse);
    }
    let template = match item_original_url(body) {
        Some(u) => u,
        None => {
            return Err(PipelineError::Parse);
        },
    };
    let count_raw: i64 = match item_page_count(body) {
        Some(c) => c,
        None => 1,
    };
    if count_raw < 1 {
        return Err(PipelineError::Parse);
    }
    let count_wide: u64 = count_raw as u64;
    if count_wide > usize::MAX as u64 {
        return Err(PipelineError::Parse);
    }
    let asset_count: usize = count_wide as usize;
    let title = match item_title(body) {
        Some(t) => t,
        None => String::from_str("untitled"),
    };
    let restrict: i64 = match item_restrict(body) {
        Some(x) => x,
        None => 0,
    };
    Ok(ItemMetadata { title, asset_count, restricted: restrict == 1, template })
}

/// The marker substituted for the first-page marker: "_p<page>".
pub open spec fn spec_page_marker(page: nat) -> Seq<char> {
    "_p"@ + spec_decimal(page)
}

/// The source URL of asset `page` of an item: for a multi-asset item,
/// the template with every first-page marker "_p0" replaced by
/// "_p<page>"; for a single-asset item, the template unchanged.
pub open spec fn spec_asset_url(template: Seq<char>, count: int, page: nat) -> Seq<char> {
    if count > 1 {
        spec_replace(template, "_p0"@, spec_page_marker(page))
    } else {
        template
    }
}

/// The category folder an item's assets land in.
pub open spec fn spec_folder(restricted: bool) -> Seq<char> {
    if restricted {
        "R18"@
    } else {
        "All"@
    }
}

/// The deterministic destination path of one asset:
/// downloads/<folder>/<title>_<filename of its URL>.
pub open spec fn spec_dest_path(restricted: bool, title: Seq<char>, url: Seq<char>) -> Seq<char> {
    "downloads/"@ + spec_folder(restricted) + "/"@ + title + "_"@ + spec_last_segment(url)
}

/// The category folder name for one item.
pub fn folder_name(restricted: bool) -> (r: &'static str)
    ensures
        r@ == spec_folder(restricted),
{
    if restricted {
        "R18"
    } else {
        "All"
    }
}

fn asset_url(template: &String, count: usize, page: usize) -> (r: String)
    ensures
        r@ == spec_asset_url(template@, count as int, page as nat),
{
    if count > 1 {
        let mut marker = String::from_str("_p");
        let digits = u64_to_decimal(page as u64);
        marker.append(digits.as_str());
        proof {
            reveal_strlit("_p0");
            assert("_p0"@.len() == 3);
        }
        replace_all(template.as_str(), "_p0", marker.as_str())
    } else {
        template.clone()
    }
}

fn dest_path(restricted: bool, title: &String, fname: &String) -> (r: String)
    ensures
        r@ == "downloads/"@ + spec_folder(restricted) + "/"@ + title@ + "_"@ + fname@,
{
    let mut path = String::from_str("downloads/");
    path.append(folder_name(restricted));
    path.append("/");
    path.append(title.as_str());
    path.append("_");
    path.append(fname.as_str());
    path
}

/// What the descriptor of page `p` of an item with metadata `m` must
/// hold: the derived source URL, the deterministic destination path,
/// and a non-empty filename part.
pub open spec fn spec_descriptor_ok(m: ItemMetadata, a: AssetDescriptor, p: int) -> bool {
    let url = spec_asset_url(m.template@, m.asset_count as int, p as nat);
    a.source_url@ == url && a.dest_path@ == spec_dest_path(m.restricted, m.title@, url)
        && spec_last_segment(url).len() > 0
}

/// Derives the full list of asset descriptors of one item: one per page
/// in page order, each with its derived source URL and its deterministic
/// destination path. Fails exactly when some page's URL has an empty
/// filename part.
pub fn derive_assets(m: &ItemMetadata) -> (r: Result<Vec<AssetDescriptor>, PipelineError>)
    requires
        m.wf(),
    ensures
        match r {
            Ok(v) => v@.len() == m.asset_count && forall|p: int|
                0 <= p < v@.len() ==> spec_descriptor_ok(*m, #[trigger] v@[p], p),
            Err(e) => e == PipelineError::Parse && exists|p: int|
                0 <= p < m.asset_count && spec_last_segment(
                    #[trigger] spec_asset_url(m.template@, m.asset_count as int, p as nat),
                ).len() == 0,
        },
{
    let mut out: Vec<AssetDescriptor> = Vec::new();
    let mut page: usize = 0;
    while page < m.asset_count
        invariant
            m.wf(),
            page <= m.asset_count,
            out@.len() == page,
            forall|p: int| 0 <= p < page ==> spec_descriptor_ok(*m, #[trigger] out@[p], p),
        decreases m.asset_count - page,
    {
        let url = asset_url(&m.template, m.asset_count, page);
        let fname = last_segment(url.as_str());
        if fname.as_str().unicode_len() == 0 {
            proof {
                let ghost w: int = page as int;
                assert(spec_last_segment(
                    spec_asset_url(m.template@, m.asset_count as int, w as nat),
                ).len() == 0);
                assert(exists|p: int|
                    0 <= p < m.asset_count && spec_last_segment(
                        #[trigger] spec_asset_url(m.template@, m.asset_count as int, p as nat),
                    ).len() == 0);
            }
            return Err(PipelineError::Parse);
        }
        let dest = dest_path(m.restricted, &m.title, &fname);
        out.push(AssetDescriptor { source_url: url, dest_path: dest });
        page += 1;
    }
    Ok(out)
}

} // verus!
