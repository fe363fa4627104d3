//! Paths in the storage zone and on the local disk, and the file requests.
//! A remote key is a path below the zone root without a leading `.` or `/`.
//! A target path without an extension names a directory that receives the
//! source's file name; two extensions that are both present must agree.
use vstd::prelude::*;
use crate::client::{
    content_type_header, no_pairs, BunnyCDNClient, BunnyCDNClientConfig, BunnyCDNDataOptions,
    BunnyCDNRequest, ContentType, HttpMethod, RequestView,
};
use crate::errors::Error;
use crate::models::storageendpoint::url_of;
use crate::text::{
    concat2, concat3, ends_with_char, is_white_space, last_char_is, starts_with_char,
    strip_first_char, trim, trim_start_ws, trim_ws,
};

verus! {

/// The position of the last `c` in `s`, or -1 where there is none.
pub open spec fn last_index_of(s: Seq<char>, c: char) -> int
    decreases s.len(),
{
    if s.len() == 0 {
        -1
    } else if s.last() == c {
        s.len() - 1
    } else {
        last_index_of(s.drop_last(), c)
    }
}

/// `s` without the copies of `c` that end it.
pub open spec fn trim_end_char(s: Seq<char>, c: char) -> Seq<char>
    decreases s.len(),
{
    if s.len() > 0 && s.last() == c {
        trim_end_char(s.drop_last(), c)
    } else {
        s
    }
}

/// `s` without the copies of `c` that start it.
pub open spec fn trim_start_char(s: Seq<char>, c: char) -> Seq<char>
    decreases s.len(),
{
    if s.len() > 0 && s[0] == c {
        trim_start_char(s.drop_first(), c)
    } else {
        s
    }
}

/// The last component of a path: what follows its last `/`, trailing `/`
/// ignored.
pub open spec fn last_component(p: Seq<char>) -> Seq<char> {
    let t = trim_end_char(p, '/');
    t.subrange(last_index_of(t, '/') + 1, t.len() as int)
}

/// The file name of a path: its last component, unless that is empty, `.`
/// or `..`.
pub open spec fn file_name_of(p: Seq<char>) -> Seq<char> {
    let c = last_component(p);
    if c.len() == 0 || c == seq!['.'] || c == seq!['.', '.'] {
        Seq::empty()
    } else {
        c
    }
}

/// The extension of a path: what follows the last `.` of its file name,
/// where that dot is not the name's first character.
pub open spec fn extension_of(p: Seq<char>) -> Seq<char> {
    let n = file_name_of(p);
    let k = last_index_of(n, '.');
    if k > 0 {
        n.subrange(k + 1, n.len() as int)
    } else {
        Seq::empty()
    }
}

/// A path trimmed of white space, where it is not blank.
pub open spec fn valid_path(p: Seq<char>) -> Option<Seq<char>> {
    if trim_ws(p).len() > 0 {
        Some(trim_ws(p))
    } else {
        None
    }
}

/// `s` without a first character `c`.
pub open spec fn drop_first_if(s: Seq<char>, c: char) -> Seq<char> {
    if starts_with_char(s, c) {
        s.drop_first()
    } else {
        s
    }
}

/// The remote key of a path: trimmed, then without a leading `.`, then
/// without a leading `/`.
pub open spec fn remote_key(p: Seq<char>) -> Option<Seq<char>> {
    match valid_path(p) {
        Some(t) => Some(drop_first_if(drop_first_if(t, '.'), '/')),
        None => None,
    }
}

/// Where a source path goes when `target` is given, both trimmed: the source
/// itself where the target is blank; nowhere where both have extensions that
/// differ; the target with the source's file name appended where the target
/// has no extension and the source has a file name; else the target.
pub open spec fn derived_path(source: Seq<char>, target: Seq<char>) -> Option<Seq<char>> {
    match valid_path(source) {
        None => None,
        Some(s) => {
            let t = trim_ws(target);
            if t.len() == 0 {
                Some(s)
            } else {
                let se = extension_of(s);
                let te = extension_of(t);
                if se.len() > 0 && te.len() > 0 && se != te {
                    None
                } else if file_name_of(s).len() > 0 && te.len() == 0 {
                    Some(t + "/"@ + file_name_of(s))
                } else {
                    Some(t)
                }
            }
        },
    }
}

/// An optional path as a view.
pub open spec fn opt_str_view(o: Option<&str>) -> Option<Seq<char>> {
    match o {
        Some(s) => Some(s@),
        None => None,
    }
}

/// The remote key that an upload of `local` stores to, given the remote path
/// asked for, if any.
pub open spec fn upload_key(local: Seq<char>, remote: Option<Seq<char>>) -> Option<Seq<char>> {
    match remote {
        None => remote_key(local),
        Some(r) => match derived_path(local, r) {
            Some(d) => remote_key(d),
            None => None,
        },
    }
}

/// The local path, before it is made absolute, that a download of `remote`
/// writes to, given the local path asked for, if any.
pub open spec fn download_target(remote: Seq<char>, local: Option<Seq<char>>) -> Option<Seq<char>> {
    match local {
        None => valid_path(remote),
        Some(l) => derived_path(remote, l),
    }
}

/// The directory part of a listing URL: trimmed, without leading or
/// trailing `/`.
pub open spec fn listing_directory(d: Seq<char>) -> Seq<char> {
    trim_end_char(trim_start_char(trim_ws(d), '/'), '/')
}

/// The base URL of the storage zone.
pub open spec fn files_root(c: BunnyCDNClientConfig) -> Seq<char> {
    url_of(c.endpoint) + "/"@ + c.storage_zone_name@
}

/// The URL that lists a directory: the zone root for a blank or root
/// directory, else the directory below it, each ending in `/`.
pub open spec fn listing_url(c: BunnyCDNClientConfig, d: Seq<char>) -> Seq<char> {
    if listing_directory(d).len() == 0 {
        files_root(c) + "/"@
    } else {
        files_root(c) + "/"@ + listing_directory(d) + "/"@
    }
}

/// The write password, where one is configured and not empty.
pub open spec fn write_key(c: BunnyCDNClientConfig) -> Option<Seq<char>> {
    match c.write_password {
        Some(w) => if w@.len() > 0 {
            Some(w@)
        } else {
            None
        },
        None => None,
    }
}

/// A request with no query, no extra header and no body.
pub open spec fn plain_request(method: HttpMethod, url: Seq<char>, access_key: Seq<char>) -> RequestView {
    RequestView {
        method,
        url,
        access_key,
        query: Seq::empty(),
        headers: Seq::empty(),
        body: Seq::empty(),
    }
}

/// The DELETE of an entry: refused without a write password or with a blank
/// path; else addressed by the trimmed path below the zone root.
pub open spec fn delete_entry_plan(c: BunnyCDNClientConfig, entry: Seq<char>) -> Option<RequestView> {
    match (write_key(c), valid_path(entry)) {
        (Some(w), Some(p)) => Some(
            plain_request(HttpMethod::Delete, files_root(c) + "/"@ + p, w),
        ),
        _ => None,
    }
}

/// The DELETE of a file: a path that ends in `/`, once trimmed, is refused.
pub open spec fn delete_file_plan(c: BunnyCDNClientConfig, path: Seq<char>) -> Option<RequestView> {
    if ends_with_char(trim_ws(path), '/') {
        None
    } else {
        delete_entry_plan(c, path)
    }
}

/// The DELETE of a directory: a path that does not end in `/`, once
/// trimmed, is refused.
pub open spec fn delete_directory_plan(c: BunnyCDNClientConfig, path: Seq<char>) -> Option<
    RequestView,
> {
    if !ends_with_char(trim_ws(path), '/') {
        None
    } else {
        delete_entry_plan(c, path)
    }
}

/// The position of the last `c` in `s`.
pub fn find_last_char(s: &str, c: char) -> (r: Option<usize>)
    ensures
        match r {
            Some(i) => last_index_of(s@, c) == i as int && i < s@.len(),
            None => last_index_of(s@, c) == -1,
        },
{
    let n = s.unicode_len();
    let mut j: usize = n;
    assert(s@.subrange(0, n as int) =~= s@);
    while j > 0 && s.get_char(j - 1) != c
        invariant
            j <= n,
            n == s@.len(),
            last_index_of(s@, c) == last_index_of(s@.subrange(0, j as int), c),
        decreases j,
    {
        assert(s@.subrange(0, j as int).drop_last() =~= s@.subrange(0, j - 1));
        j = j - 1;
    }
    if j == 0 {
        None
    } else {
        Some(j - 1)
    }
}

/// `s` without the copies of `c` that end it.
pub fn trim_end_matches_char(s: &str, c: char) -> (r: String)
    ensures
        r@ == trim_end_char(s@, c),
{
    let n = s.unicode_len();
    let mut j: usize = n;
    assert(s@.subrange(0, n as int) =~= s@);
    while j > 0 && s.get_char(j - 1) == c
        invariant
            j <= n,
            n == s@.len(),
            trim_end_char(s@, c) == trim_end_char(s@.subrange(0, j as int), c),
        decreases j,
    {
        assert(s@.subrange(0, j as int).drop_last() =~= s@.subrange(0, j - 1));
        j = j - 1;
    }
    s.substring_char(0, j).to_owned()
}

/// `s` without the copies of `c` that start it.
pub fn trim_start_matches_char(s: &str, c: char) -> (r: String)
    ensures
        r@ == trim_start_char(s@, c),
{
    let n = s.unicode_len();
    let mut i: usize = 0;
    assert(s@.subrange(0, n as int) =~= s@);
    while i < n && s.get_char(i) == c
        invariant
            i <= n,
            n == s@.len(),
            trim_start_char(s@, c) == trim_start_char(s@.subrange(i as int, n as int), c),
        decreases n - i,
    {
        assert(s@.subrange(i as int, n as int).drop_first() =~= s@.subrange(i + 1, n as int));
        i = i + 1;
    }
    s.substring_char(i, n).to_owned()
}

/// The file name of a path, as `file_name_of` states.
pub fn file_name(p: &str) -> (r: String)
    ensures
        r@ == file_name_of(p@),
{
    let t = trim_end_matches_char(p, '/');
    let n = t.as_str().unicode_len();
    let start: usize = match find_last_char(t.as_str(), '/') {
        Some(k) => k + 1,
        None => 0,
    };
    let c = t.as_str().substring_char(start, n).to_owned();
    let len = c.as_str().unicode_len();
    if len == 0 || (len == 1 && c.as_str().get_char(0) == '.') || (len == 2 && c.as_str().get_char(0)
        == '.' && c.as_str().get_char(1) == '.') {
        proof {
            if len == 1 && c@[0] == '.' {
                assert(c@ =~= seq!['.']);
            }
            if len == 2 && c@[0] == '.' && c@[1] == '.' {
                assert(c@ =~= seq!['.', '.']);
            }
        }
        String::new()
    } else {
        proof {
            if c@ == seq!['.'] {
                assert(c@[0] == '.');
            }
            if c@ == seq!['.', '.'] {
                assert(c@[0] == '.' && c@[1] == '.');
            }
        }
        c
    }
}

/// The extension of a path, as `extension_of` states.
pub fn extension(p: &str) -> (r: String)
    ensures
        r@ == extension_of(p@),
{
    let name = file_name(p);
    let n = name.as_str().unicode_len();
    match find_last_char(name.as_str(), '.') {
        Some(k) => {
            if k > 0 {
                name.as_str().substring_char(k + 1, n).to_owned()
            } else {
                String::new()
            }
        },
        None => String::new(),
    }
}

/// The trimmed path, where it is not blank.
pub fn validate_filepath(filepath: &str) -> (r: Result<String, Error>)
    ensures
        match r {
            Ok(s) => valid_path(filepath@) == Some(s@),
            Err(_) => valid_path(filepath@) is None,
        },
{
    let trimmed = trim(filepath);
    if trimmed.as_str().is_empty() {
        return Err(Error::new_from_message("Invalid filepath"));
    }
    Ok(trimmed)
}

/// The extension of the trimmed path.
pub fn retrieve_filepath_extension(filepath: &str) -> (r: String)
    ensures
        r@ == extension_of(trim_ws(filepath@)),
{
    let trimmed = trim(filepath);
    extension(trimmed.as_str())
}

/// The file name of the trimmed path.
pub fn retrieve_filepath_filename(filepath: &str) -> (r: String)
    ensures
        r@ == file_name_of(trim_ws(filepath@)),
{
    let trimmed = trim(filepath);
    file_name(trimmed.as_str())
}

/// The remote key of a path, as `remote_key` states.
pub fn prepare_remote_filepath(filepath: &str) -> (r: Result<String, Error>)
    ensures
        match r {
            Ok(s) => remote_key(filepath@) == Some(s@),
            Err(_) => remote_key(filepath@) is None,
        },
{
    let validated = validate_filepath(filepath)?;
    let without_dot = strip_first_char(validated, '.');
    Ok(strip_first_char(without_dot, '/'))
}

/// Where `source_filepath` goes given `target_filepath`, as `derived_path` states.
pub fn derive_filepath_common(source_filepath: &str, target_filepath: &str) -> (r: Result<
    String,
    Error,
>)
    ensures
        match r {
            Ok(s) => derived_path(source_filepath@, target_filepath@) == Some(s@),
            Err(_) => derived_path(source_filepath@, target_filepath@) is None,
        },
{
    let validated_source = validate_filepath(source_filepath)?;
    let trimmed_target = trim(target_filepath);
    if trimmed_target.as_str().is_empty() {
        return Ok(validated_source);
    }
    let source_extension = extension(validated_source.as_str());
    let target_extension = extension(trimmed_target.as_str());
    if !source_extension.as_str().is_empty() && !target_extension.as_str().is_empty() && !(
    source_extension == target_extension) {
        let message = concat3(
            "Invalid Remote File Extension - Expected ",
            source_extension.as_str(),
            concat2(", Received ", target_extension.as_str()).as_str(),
        );
        return Err(Error::new_from_message(message.as_str()));
    }
    let source_name = file_name(validated_source.as_str());
    if !source_name.as_str().is_empty() && target_extension.as_str().is_empty() {
        return Ok(concat3(trimmed_target.as_str(), "/", source_name.as_str()));
    }
    Ok(trimmed_target)
}

/// The remote key of an upload, as `upload_key` states.
pub fn evaluate_remote_target_filepath(local_filepath: &str, remote_filepath: Option<&str>) -> (r:
    Result<String, Error>)
    ensures
        match r {
            Ok(s) => upload_key(local_filepath@, opt_str_view(remote_filepath)) == Some(s@),
            Err(_) => upload_key(local_filepath@, opt_str_view(remote_filepath)) is None,
        },
{
    match remote_filepath {
        None => prepare_remote_filepath(local_filepath),
        Some(remote) => {
            let derived = derive_filepath_common(local_filepath, remote)?;
            prepare_remote_filepath(derived.as_str())
        },
    }
}

/// The local target of a download before it is made absolute, as
/// `download_target` states.
pub fn evaluate_local_target_filepath(remote_filepath: &str, local_filepath: Option<&str>) -> (r:
    Result<String, Error>)
    ensures
        match r {
            Ok(s) => download_target(remote_filepath@, opt_str_view(local_filepath)) == Some(
                s@,
            ),
            Err(_) => download_target(remote_filepath@, opt_str_view(local_filepath)) is None,
        },
{
    match local_filepath {
        None => validate_filepath(remote_filepath),
        Some(local) => derive_filepath_common(remote_filepath, local),
    }
}

impl BunnyCDNClient {
    /// The base URL of the storage zone.
    pub fn get_files_root_url(&self) -> (r: String)
        ensures
            r@ == files_root(self.config),
    {
        concat3(self.config.endpoint.url().as_str(), "/", self.config.storage_zone_name.as_str())
    }

    /// Checks that a write password is configured and not empty.
    pub fn check_write_password_ok(&self) -> (r: Result<(), Error>)
        ensures
            match r {
                Ok(_) => write_key(self.config) is Some,
                Err(e) => write_key(self.config) is None && e.message@ == (
                if self.config.write_password is None {
                    "No Write Password"@
                } else {
                    "Invalid Write Password"@
                }),
            },
    {
        match &self.config.write_password {
            Some(write_password) => {
                if write_password.as_str().is_empty() {
                    Err(Error::new_from_message("Invalid Write Password"))
                } else {
                    Ok(())
                }
            },
            None => Err(Error::new_from_message("No Write Password")),
        }
    }

    /// The write password, once `check_write_password_ok` has passed.
    fn write_password(&self) -> (r: String)
        requires
            write_key(self.config) is Some,
        ensures
            write_key(self.config) == Some(r@),
    {
        match &self.config.write_password {
            Some(w) => w.clone(),
            None => String::new(),
        }
    }

    /// The request that lists a directory, with the read password.
    pub fn get_files_request(&self, directory: &str) -> (r: BunnyCDNRequest)
        ensures
            r@ == plain_request(
                HttpMethod::Get,
                listing_url(self.config, directory@),
                self.config.read_password@,
            ),
    {
        let trimmed = trim(directory);
        let without_leading = trim_start_matches_char(trimmed.as_str(), '/');
        let used_directory = trim_end_matches_char(without_leading.as_str(), '/');
        let root = self.get_files_root_url();
        let url = if used_directory.as_str().is_empty() {
            concat2(root.as_str(), "/")
        } else {
            let mut u = concat3(root.as_str(), "/", used_directory.as_str());
            u.append("/");
            u
        };
        BunnyCDNRequest {
            method: HttpMethod::Get,
            url,
            access_key: self.config.read_password.clone(),
            query: no_pairs(),
            options: None,
            body: Vec::new(),
        }
    }

    /// The PUT that uploads `file_contents`, read from `local_filepath`, to
    /// the remote key that `upload_key` gives, with the write password.
    pub fn upload_file_request(
        &self,
        local_filepath: &str,
        remote_filepath: Option<&str>,
        file_contents: Vec<u8>,
    ) -> (r: Result<BunnyCDNRequest, Error>)
        ensures
            match r {
                Ok(req) => (write_key(self.config) matches Some(w) && upload_key(
                    local_filepath@,
                    opt_str_view(remote_filepath),
                ) matches Some(k) && req@ == RequestView {
                    method: HttpMethod::Put,
                    url: files_root(self.config) + "/"@ + k,
                    access_key: w,
                    query: Seq::empty(),
                    headers: content_type_header(ContentType::ApplicationOctetStream),
                    body: file_contents@,
                }),
                Err(_) => write_key(self.config) is None || upload_key(
                    local_filepath@,
                    opt_str_view(remote_filepath),
                ) is None,
            },
    {
        self.check_write_password_ok()?;
        let remote_key = evaluate_remote_target_filepath(local_filepath, remote_filepath)?;
        let url = concat3(self.get_files_root_url().as_str(), "/", remote_key.as_str());
        Ok(
            BunnyCDNRequest {
                method: HttpMethod::Put,
                url,
                access_key: self.write_password(),
                query: no_pairs(),
                options: Some(BunnyCDNDataOptions::with_content_type(ContentType::ApplicationOctetStream)),
                body: file_contents,
            },
        )
    }

    /// The DELETE of a file or a directory, as `delete_entry_plan` states.
    pub fn handle_delete_entry(&self, entry_path: &str) -> (r: Result<BunnyCDNRequest, Error>)
        ensures
            match r {
                Ok(req) => delete_entry_plan(self.config, entry_path@) == Some(req@),
                Err(_) => delete_entry_plan(self.config, entry_path@) is None,
            },
    {
        self.check_write_password_ok()?;
        let delete_entry_path = validate_filepath(entry_path)?;
        let url = concat3(self.get_files_root_url().as_str(), "/", delete_entry_path.as_str());
        Ok(
            BunnyCDNRequest {
                method: HttpMethod::Delete,
                url,
                access_key: self.write_password(),
                query: no_pairs(),
                options: None,
                body: Vec::new(),
            },
        )
    }

    /// The DELETE of a file; a path with a trailing `/` is refused, so that
    /// a mistyped path cannot delete a directory.
    pub fn delete_file_request(&self, filepath: &str) -> (r: Result<BunnyCDNRequest, Error>)
        ensures
            match r {
                Ok(req) => delete_file_plan(self.config, filepath@) == Some(req@),
                Err(_) => delete_file_plan(self.config, filepath@) is None,
            },
    {
        if last_char_is(trim(filepath).as_str(), '/') {
            let message = concat3(
                "Invalid Filepath - Provided: ",
                filepath,
                ". Has a trailing /. Trying to delete a directory?",
            );
            return Err(Error::new_from_message(message.as_str()));
        }
        self.handle_delete_entry(filepath)
    }

    /// The DELETE of a directory; the remote API finds a directory only by a
    /// path with a trailing `/`, so a path without one is refused.
    pub fn delete_directory_request(&self, directory_path: &str) -> (r: Result<
        BunnyCDNRequest,
        Error,
    >)
        ensures
            match r {
                Ok(req) => delete_directory_plan(self.config, directory_path@) == Some(req@),
                Err(_) => delete_directory_plan(self.config, directory_path@) is None,
            },
    {
        if !last_char_is(trim(directory_path).as_str(), '/') {
            let message = concat2(
                "Invalid Directory Path. Missing trailing / - Provided: ",
                directory_path,
            );
            return Err(Error::new_from_message(message.as_str()));
        }
        self.handle_delete_entry(directory_path)
    }

    /// The GET of a file's contents, with the read password.
    pub fn download_file_request(&self, remote_filepath: &str) -> (r: Result<BunnyCDNRequest, Error>)
        ensures
            match r {
                Ok(req) => (remote_key(remote_filepath@) matches Some(k) && req@ == plain_request(
                    HttpMethod::Get,
                    files_root(self.config) + "/"@ + k,
                    self.config.read_password@,
                )),
                Err(_) => remote_key(remote_filepath@) is None,
            },
    {
        let used_remote_filepath = prepare_remote_filepath(remote_filepath)?;
        let url = concat3(self.get_files_root_url().as_str(), "/", used_remote_filepath.as_str());
        Ok(
            BunnyCDNRequest {
                method: HttpMethod::Get,
                url,
                access_key: self.config.read_password.clone(),
                query: no_pairs(),
                options: None,
                body: Vec::new(),
            },
        )
    }
}

/// The rules of upload targets: a remote path whose extension differs from
/// the local file's is refused, so no upload renames across extensions; and
/// a remote path without an extension is a directory that receives the local
/// file's name.
pub proof fn lemma_upload_target_rules(local: Seq<char>, remote: Seq<char>)
    requires
        valid_path(local) is Some,
        trim_ws(remote).len() > 0,
    ensures
        (extension_of(trim_ws(local)).len() > 0 && extension_of(trim_ws(remote)).len() > 0
            && extension_of(trim_ws(local)) != extension_of(trim_ws(remote))) ==> upload_key(
            local,
            Some(remote),
        ) is None,
        (extension_of(trim_ws(remote)).len() == 0 && file_name_of(trim_ws(local)).len() > 0)
            ==> derived_path(local, remote) == Some(
            trim_ws(remote) + "/"@ + file_name_of(trim_ws(local)),
        ),
{
}

/// Trimming leading white space keeps a last character that is not white
/// space.
proof fn lemma_trim_start_keeps_last(s: Seq<char>)
    requires
        s.len() > 0,
        !is_white_space(s.last()),
    ensures
        trim_start_ws(s).len() > 0,
        trim_start_ws(s).last() == s.last(),
    decreases s.len(),
{
    if is_white_space(s[0]) {
        lemma_trim_start_keeps_last(s.drop_first());
    }
}

/// Trimming keeps a last character that is not white space.
proof fn lemma_trim_keeps_last(s: Seq<char>)
    requires
        s.len() > 0,
        !is_white_space(s.last()),
    ensures
        trim_ws(s).len() > 0,
        trim_ws(s).last() == s.last(),
{
    lemma_trim_start_keeps_last(s);
}

/// The trailing-separator rules of deletion: a path that ends in `/`, white
/// space around it aside, is never deleted as a file; one that does not is
/// never deleted as a directory; and one that does passes the checks of a
/// directory deletion whenever a write password is configured. In particular
/// a path whose last character is `/` is refused as a file and accepted as a
/// directory.
pub proof fn lemma_delete_separator_rules(c: BunnyCDNClientConfig, path: Seq<char>)
    ensures
        ends_with_char(trim_ws(path), '/') ==> delete_file_plan(c, path) is None,
        !ends_with_char(trim_ws(path), '/') ==> delete_directory_plan(c, path) is None,
        ends_with_char(trim_ws(path), '/') && write_key(c) is Some ==> delete_directory_plan(
            c,
            path,
        ) is Some,
        ends_with_char(path, '/') ==> ends_with_char(trim_ws(path), '/'),
{
    if ends_with_char(path, '/') {
        lemma_trim_keeps_last(path);
    }
}

} // verus!
