use vstd::prelude::*;
use vstd::string::StringExecFns;
use crate::json::{get_member, json_of_text, member, parse_json, Json};
use crate::text::{chars_of, decimal, push_decimal, string_of};

verus! {

/// A project as the search endpoint describes it.
pub struct Project {
    pub id: String,
    pub title: String,
    pub description: String,
    pub versions: Vec<String>,
    pub downloads: i64,
}

/// What can go wrong while talking to the mod-hosting service.
#[derive(PartialEq, Eq, Structural, Clone, Copy, Debug)]
pub enum ClientError {
    /// The request could not be sent or its response not read.
    Query,
    /// The response does not have the expected shape.
    Parse,
    /// No version of the project offers a file for the chosen game version.
    ResolutionNotFound,
    /// A file could not be fetched or stored.
    Download,
}

/// The text of a JSON string, if `j` is one.
pub open spec fn text_of(j: Json) -> Option<Seq<char>> {
    match j {
        Json::Str(s) => Some(s@),
        _ => None,
    }
}

/// The text stored under `key` in an object.
pub open spec fn text_member(members: Seq<(String, Json)>, key: Seq<char>) -> Option<Seq<char>> {
    match member(members, key) {
        Some(j) => text_of(j),
        None => None,
    }
}

/// The elements of the array stored under `key` in `j`, if `j` is an object holding one.
pub open spec fn array_member(j: Json, key: Seq<char>) -> Option<Seq<Json>> {
    match j {
        Json::Object(m) => match member(m@, key) {
            Some(Json::Array(a)) => Some(a@),
            _ => None,
        },
        _ => None,
    }
}

/// `j` is an array of strings holding `ts`, in order.
pub open spec fn texts_are(a: Seq<Json>, ts: Seq<Seq<char>>) -> bool {
    a.len() == ts.len() && forall|i: int| 0 <= i < a.len() ==> text_of(#[trigger] a[i]) == Some(ts[i])
}

/// A search record has every field a project needs, each of the right kind.
pub open spec fn is_project(j: Json) -> bool {
    match j {
        Json::Object(m) => {
            &&& text_member(m@, "project_id"@) is Some
            &&& text_member(m@, "title"@) is Some
            &&& text_member(m@, "description"@) is Some
            &&& array_member(j, "versions"@) is Some
            &&& forall|i: int|
                0 <= i < array_member(j, "versions"@)->0.len() ==> (text_of(
                    #[trigger] array_member(j, "versions"@)->0[i],
                ) is Some)
            &&& exists|d: i64| member(m@, "downloads"@) == Some(Json::Number(Some(d)))
        },
        _ => false,
    }
}

/// `p` carries exactly the fields of the search record `j`.
pub open spec fn project_matches(p: Project, j: Json) -> bool {
    match j {
        Json::Object(m) => {
            &&& text_member(m@, "project_id"@) == Some(p.id@)
            &&& text_member(m@, "title"@) == Some(p.title@)
            &&& text_member(m@, "description"@) == Some(p.description@)
            &&& array_member(j, "versions"@) is Some
            &&& texts_are(array_member(j, "versions"@)->0, p.versions@.map_values(|s: String| s@))
            &&& member(m@, "downloads"@) == Some(Json::Number(Some(p.downloads)))
        },
        _ => false,
    }
}

fn key(s: &str) -> (r: String)
    ensures
        r@ == s@,
{
    <String as StringExecFns>::from_str(s)
}

fn text_field(members: &Vec<(String, Json)>, name: &str) -> (r: Option<String>)
    ensures
        match r {
            Some(s) => text_member(members@, name@) == Some(s@),
            None => text_member(members@, name@) is None,
        },
{
    match get_member(members, &key(name)) {
        Some(Json::Str(s)) => Some(s.clone()),
        _ => None,
    }
}

/// The strings of a JSON array, if every element is a string.
pub fn texts(items: &Vec<Json>) -> (r: Option<Vec<String>>)
    ensures
        match r {
            Some(v) => texts_are(items@, v@.map_values(|s: String| s@)),
            None => exists|i: int| 0 <= i < items@.len() && text_of(#[trigger] items@[i]) is None,
        },
{
    let mut out: Vec<String> = Vec::new();
    let mut i: usize = 0;
    while i < items.len()
        invariant
            i <= items@.len(),
            out@.len() == i,
            forall|k: int| 0 <= k < i ==> text_of(#[trigger] items@[k]) == Some(out@[k]@),
        decreases items.len() - i,
    {
        match &items[i] {
            Json::Str(s) => out.push(s.clone()),
            _ => {
                return None;
            },
        }
        i = i + 1;
    }
    assert(texts_are(items@, out@.map_values(|s: String| s@)));
    Some(out)
}

proof fn lemma_versions_not_texts(j: Json, a: Seq<Json>)
    requires
        array_member(j, "versions"@) == Some(a),
        exists|i: int| 0 <= i < a.len() && text_of(#[trigger] a[i]) is None,
    ensures
        !is_project(j),
{
    let i = choose|i: int| 0 <= i < a.len() && text_of(#[trigger] a[i]) is None;
    assert(array_member(j, "versions"@)->0[i] == a[i]);
}

/// Reads one search record into a project.
pub fn project_from_json(j: &Json) -> (r: Option<Project>)
    ensures
        r is Some <==> is_project(*j),
        r is Some ==> project_matches(r->0, *j),
{
    let m = match j {
        Json::Object(m) => m,
        _ => {
            return None;
        },
    };
    let id = match text_field(m, "project_id") {
        Some(s) => s,
        None => {
            return None;
        },
    };
    let title = match text_field(m, "title") {
        Some(s) => s,
        None => {
            return None;
        },
    };
    let description = match text_field(m, "description") {
        Some(s) => s,
        None => {
            return None;
        },
    };
    let items = match get_member(m, &key("versions")) {
        Some(Json::Array(a)) => a,
        _ => {
            return None;
        },
    };
    let versions = match texts(items) {
        Some(v) => v,
        None => {
            proof {
                lemma_versions_not_texts(*j, items@);
            }
            return None;
        },
    };
    let downloads = match get_member(m, &key("downloads")) {
        Some(Json::Number(Some(d))) => *d,
        _ => {
            return None;
        },
    };
    let p = Project { id, title, description, versions, downloads };
    assert forall|i: int| 0 <= i < items@.len() implies text_of(#[trigger] items@[i]) is Some by {
        assert(p.versions@.map_values(|s: String| s@)[i] == p.versions@[i]@);
    }
    Some(p)
}

/// The records of the search response's "hits" array, if it has one.
pub open spec fn hits_of(body: Json) -> Option<Seq<Json>> {
    array_member(body, "hits"@)
}

/// A search response is an object with an array under "hits" whose every
/// record is a complete project.
pub open spec fn is_search_response(body: Json) -> bool {
    &&& hits_of(body) is Some
    &&& forall|i: int| 0 <= i < hits_of(body)->0.len() ==> is_project(#[trigger] hits_of(body)->0[i])
}

/// What reading a search response `body` owes: one project for each record
/// of "hits", in order, or a parse error when the response is malformed.
pub open spec fn search_outcome(body: Json, r: Result<Vec<Project>, ClientError>) -> bool {
    match r {
        Ok(v) => is_search_response(body) && v@.len() == hits_of(body)->0.len() && forall|i: int|
            0 <= i < v@.len() ==> project_matches(#[trigger] v@[i], hits_of(body)->0[i]),
        Err(e) => !is_search_response(body) && e == ClientError::Parse,
    }
}

/// Reads the projects out of a parsed search response.
pub fn projects_from_json(body: &Json) -> (r: Result<Vec<Project>, ClientError>)
    ensures
        search_outcome(*body, r),
{
    let m = match body {
        Json::Object(m) => m,
        _ => {
            return Err(ClientError::Parse);
        },
    };
    let hits = match get_member(m, &key("hits")) {
        Some(Json::Array(a)) => a,
        _ => {
            return Err(ClientError::Parse);
        },
    };
    let mut out: Vec<Project> = Vec::new();
    let mut i: usize = 0;
    while i < hits.len()
        invariant
            hits_of(*body) == Some(hits@),
            i <= hits@.len(),
            out@.len() == i,
            forall|k: int| 0 <= k < i ==> #[trigger] is_project(hits@[k]),
            forall|k: int| 0 <= k < i ==> project_matches(#[trigger] out@[k], hits@[k]),
        decreases hits.len() - i,
    {
        match project_from_json(&hits[i]) {
            Some(p) => out.push(p),
            None => {
                assert(hits_of(*body)->0[i as int] == hits@[i as int]);
                return Err(ClientError::Parse);
            },
        }
        i = i + 1;
    }
    Ok(out)
}

/// Reads the projects out of the text of a search response.
pub fn projects_from_body(body: &str) -> (r: Result<Vec<Project>, ClientError>)
    ensures
        match json_of_text(body@) {
            Some(j) => search_outcome(j, r),
            None => r == Err::<Vec<Project>, ClientError>(ClientError::Parse),
        },
{
    match parse_json(body) {
        Some(j) => projects_from_json(&j),
        None => Err(ClientError::Parse),
    }
}

/// A version record lists `version` among its "game_versions".
pub open spec fn supports(record: Json, version: Seq<char>) -> bool {
    match array_member(record, "game_versions"@) {
        Some(a) => exists|i: int| 0 <= i < a.len() && text_of(#[trigger] a[i]) == Some(version),
        None => false,
    }
}

/// The "url" of the first entry of a record's "files": the empty text when
/// the list is empty, and nothing when "files" is not an array or its first
/// entry is not an object with a string "url".
pub open spec fn first_file_url(record: Json) -> Option<Seq<char>> {
    match array_member(record, "files"@) {
        Some(files) => if files.len() == 0 {
            Some(Seq::empty())
        } else {
            match files[0] {
                Json::Object(o) => text_member(o@, "url"@),
                _ => None,
            }
        },
        None => None,
    }
}

/// The download link for `version` among version records: that of the
/// earliest record that supports it, or the empty text when none does;
/// nothing when that record's files are malformed.
pub open spec fn link_of(records: Seq<Json>, version: Seq<char>) -> Option<Seq<char>>
    decreases records.len(),
{
    if records.len() == 0 {
        Some(Seq::empty())
    } else if supports(records[0], version) {
        first_file_url(records[0])
    } else {
        link_of(records.drop_first(), version)
    }
}

/// A version record is an object with an array under "game_versions".
pub open spec fn is_version_record(record: Json) -> bool {
    array_member(record, "game_versions"@) is Some
}

/// A version listing is an array of version records.
pub open spec fn is_version_listing(body: Json) -> bool {
    match body {
        Json::Array(a) => forall|i: int| 0 <= i < a@.len() ==> is_version_record(#[trigger] a@[i]),
        _ => false,
    }
}

/// What resolving a link in a version listing owes: the link of `link_of`,
/// or a parse error when the listing or the chosen record is malformed.
pub open spec fn link_outcome(body: Json, version: Seq<char>, r: Result<String, ClientError>) -> bool {
    let ok = is_version_listing(body) && link_of(body->Array_0@, version) is Some;
    match r {
        Ok(url) => ok && link_of(body->Array_0@, version) == Some(url@),
        Err(e) => !ok && e == ClientError::Parse,
    }
}

fn version_record(record: &Json) -> (r: bool)
    ensures
        r == is_version_record(*record),
{
    match record {
        Json::Object(m) => match get_member(m, &key("game_versions")) {
            Some(Json::Array(_)) => true,
            _ => false,
        },
        _ => false,
    }
}

fn supports_version(record: &Json, version: &String) -> (r: bool)
    ensures
        r == supports(*record, version@),
{
    let m = match record {
        Json::Object(m) => m,
        _ => {
            return false;
        },
    };
    let items = match get_member(m, &key("game_versions")) {
        Some(Json::Array(a)) => a,
        _ => {
            return false;
        },
    };
    let mut i: usize = 0;
    while i < items.len()
        invariant
            array_member(*record, "game_versions"@) == Some(items@),
            i <= items@.len(),
            forall|k: int| 0 <= k < i ==> text_of(#[trigger] items@[k]) != Some(version@),
        decreases items.len() - i,
    {
        if let Json::Str(s) = &items[i] {
            if *s == *version {
                return true;
            }
        }
        i = i + 1;
    }
    false
}

fn file_url(record: &Json) -> (r: Option<String>)
    ensures
        match r {
            Some(u) => first_file_url(*record) == Some(u@),
            None => first_file_url(*record) is None,
        },
{
    let m = match record {
        Json::Object(m) => m,
        _ => {
            return None;
        },
    };
    let files = match get_member(m, &key("files")) {
        Some(Json::Array(a)) => a,
        _ => {
            return None;
        },
    };
    if files.len() == 0 {
        return Some(String::new());
    }
    match &files[0] {
        Json::Object(o) => text_field(o, "url"),
        _ => None,
    }
}

/// Resolves the download link for `version` in a parsed version listing.
pub fn link_from_json(body: &Json, version: &String) -> (r: Result<String, ClientError>)
    ensures
        link_outcome(*body, version@, r),
{
    let records = match body {
        Json::Array(a) => a,
        _ => {
            return Err(ClientError::Parse);
        },
    };
    let mut i: usize = 0;
    while i < records.len()
        invariant
            i <= records@.len(),
            *body == Json::Array(*records),
            forall|k: int| 0 <= k < i ==> is_version_record(#[trigger] records@[k]),
        decreases records.len() - i,
    {
        if !version_record(&records[i]) {
            return Err(ClientError::Parse);
        }
        i = i + 1;
    }
    let mut j: usize = 0;
    assert(records@.subrange(0, records@.len() as int) =~= records@);
    while j < records.len()
        invariant
            j <= records@.len(),
            is_version_listing(*body),
            *body == Json::Array(*records),
            link_of(records@, version@) == link_of(
                records@.subrange(j as int, records@.len() as int),
                version@,
            ),
        decreases records.len() - j,
    {
        assert(records@.subrange(j as int, records@.len() as int).drop_first()
            =~= records@.subrange(j + 1, records@.len() as int));
        assert(records@.subrange(j as int, records@.len() as int)[0] == records@[j as int]);
        if supports_version(&records[j], version) {
            return match file_url(&records[j]) {
                Some(url) => Ok(url),
                None => Err(ClientError::Parse),
            };
        }
        j = j + 1;
    }
    Ok(String::new())
}

/// Resolves the download link for `version` in the text of a version listing.
pub fn link_from_body(body: &str, version: &String) -> (r: Result<String, ClientError>)
    ensures
        match json_of_text(body@) {
            Some(j) => link_outcome(j, version@, r),
            None => r == Err::<String, ClientError>(ClientError::Parse),
        },
{
    match parse_json(body) {
        Some(j) => link_from_json(&j, version),
        None => Err(ClientError::Parse),
    }
}

/// The line under which a project is listed: its title, its download count
/// and its id.
pub open spec fn entry_label(title: Seq<char>, downloads: int, id: Seq<char>) -> Seq<char> {
    title + " ("@ + decimal(downloads) + " downloads) | "@ + id
}

/// The line under which a project is listed.
pub fn format_entry(p: &Project) -> (r: String)
    ensures
        r@ == entry_label(p.title@, p.downloads as int, p.id@),
{
    let mut out = p.title.clone();
    out.append(" (");
    push_decimal(p.downloads, &mut out);
    out.append(" downloads) | ");
    out.append(p.id.as_str());
    assert(out@ =~= entry_label(p.title@, p.downloads as int, p.id@));
    out
}

/// The address of a search for `query` among mods of one loader category.
pub open spec fn search_url_of(query: Seq<char>) -> Seq<char> {
    "https://api.modrinth.com/v2/search?query="@ + query
        + "&facets=[[\"categories:fabric\"],[\"project_type:mod\"]]"@
}

/// Builds the address of a search for `query`.
pub fn search_url(query: &str) -> (r: String)
    ensures
        r@ == search_url_of(query@),
{
    let mut out = key("https://api.modrinth.com/v2/search?query=");
    out.append(query);
    out.append("&facets=[[\"categories:fabric\"],[\"project_type:mod\"]]");
    out
}

/// The address of the version listing of a project.
pub open spec fn versions_url_of(id: Seq<char>) -> Seq<char> {
    "https://api.modrinth.com/v2/project/"@ + id + "/version"@
}

/// Builds the address of the version listing of a project.
pub fn versions_url(id: &str) -> (r: String)
    ensures
        r@ == versions_url_of(id@),
{
    let mut out = key("https://api.modrinth.com/v2/project/");
    out.append(id);
    out.append("/version");
    out
}

/// What follows the last '/' of a text; all of it when it holds none.
pub open spec fn last_segment(s: Seq<char>) -> Seq<char>
    decreases s.len(),
{
    if s.len() == 0 {
        Seq::empty()
    } else if s.last() == '/' {
        Seq::empty()
    } else {
        last_segment(s.drop_last()).push(s.last())
    }
}

/// The name under which a downloaded file is stored: the last path segment of its address.
pub fn file_name_of_url(url: &str) -> (r: String)
    ensures
        r@ == last_segment(url@),
{
    let cs = chars_of(url);
    let mut start: usize = cs.len();
    assert(cs@.subrange(0, start as int) =~= cs@);
    assert(cs@.subrange(start as int, cs@.len() as int) =~= Seq::<char>::empty());
    while start > 0 && cs[start - 1] != '/'
        invariant
            start <= cs@.len(),
            last_segment(cs@) == last_segment(cs@.subrange(0, start as int)) + cs@.subrange(
                start as int,
                cs@.len() as int,
            ),
        decreases start,
    {
        let ghost pre = cs@.subrange(0, start as int);
        assert(pre.drop_last() =~= cs@.subrange(0, start - 1));
        assert(cs@.subrange(start - 1, cs@.len() as int) =~= seq![pre.last()] + cs@.subrange(
            start as int,
            cs@.len() as int,
        ));
        start = start - 1;
    }
    let mut out: Vec<char> = Vec::new();
    let mut i: usize = start;
    while i < cs.len()
        invariant
            start <= i <= cs@.len(),
            out@ =~= cs@.subrange(start as int, i as int),
        decreases cs.len() - i,
    {
        out.push(cs[i]);
        i = i + 1;
    }
    assert(last_segment(cs@.subrange(0, start as int)) =~= Seq::<char>::empty());
    string_of(&out)
}

/// Decides the fate of one queued project in a download pass, once its
/// link was resolved: a non-empty link is to be downloaded; an empty link or
/// a failed resolution is recorded against the project's id, and the pass
/// goes on with the next project.
pub fn pass_step(
    failed: &mut Vec<(String, ClientError)>,
    id: &String,
    outcome: Result<String, ClientError>,
) -> (r: Option<String>)
    ensures
        match outcome {
            Ok(link) => if link@.len() > 0 {
                r == Some(link) && final(failed)@ == old(failed)@
            } else {
                r is None && final(failed)@ == old(failed)@.push(
                    (*id, ClientError::ResolutionNotFound),
                )
            },
            Err(e) => r is None && final(failed)@ == old(failed)@.push((*id, e)),
        },
{
    match outcome {
        Ok(link) => {
            if link.as_str().is_empty() {
                failed.push((id.clone(), ClientError::ResolutionNotFound));
                None
            } else {
                Some(link)
            }
        },
        Err(e) => {
            failed.push((id.clone(), e));
            None
        },
    }
}

/// Records a failed download against the project's id; a success leaves the
/// record as it was.
pub fn record_download(
    failed: &mut Vec<(String, ClientError)>,
    id: &String,
    outcome: Result<(), ClientError>,
)
    ensures
        match outcome {
            Ok(()) => final(failed)@ == old(failed)@,
            Err(e) => final(failed)@ == old(failed)@.push((*id, e)),
        },
{
    if let Err(e) = outcome {
        failed.push((id.clone(), e));
    }
}

} // verus!
