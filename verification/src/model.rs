//! The domain model: a profile, a post, a media reference, and the request
//! descriptions used to address the feed, together with the planning of
//! media downloads.
//!
//! Every media download is planned here as a `DownloadJob` (source address
//! plus destination path); performing the transfer is the caller's side
//! effect. The three variants of one media reference are planned
//! independently, and a reference with no address yields no job at all.

use vstd::prelude::*;

use crate::text::{dec_str, ext_of, query_string};
use crate::text::{extension_of, join_query, u64_to_string};

verus! {

/// One post's attachable asset: up to three addresses for the same media.
/// All three empty is legal and means there is nothing to download.
#[derive(Debug, Clone, PartialEq, Eq)]
pub struct Picture {
    pub id: String,
    pub normal: String,
    pub large: String,
    pub video: String,
}

/// The mathematical view of a `Picture`.
pub struct PictureV {
    pub id: Seq<char>,
    pub normal: Seq<char>,
    pub large: Seq<char>,
    pub video: Seq<char>,
}

impl View for Picture {
    type V = PictureV;

    open spec fn view(&self) -> PictureV {
        PictureV { id: self.id@, normal: self.normal@, large: self.large@, video: self.video@ }
    }
}

/// One post: its text fields are opaque to this system and are carried as
/// they were decoded; the media references keep their source order.
#[derive(Debug, Clone, PartialEq, Eq)]
pub struct Blog {
    pub id: String,
    pub text: String,
    pub raw: String,
    pub source: String,
    pub region: String,
    pub create: String,
    pub page: String,
    pub pictures: Vec<Picture>,
}

/// The mathematical view of a `Blog`.
pub struct BlogV {
    pub id: Seq<char>,
    pub text: Seq<char>,
    pub raw: Seq<char>,
    pub source: Seq<char>,
    pub region: Seq<char>,
    pub create: Seq<char>,
    pub page: Seq<char>,
    pub pictures: Seq<PictureV>,
}

impl View for Blog {
    type V = BlogV;

    open spec fn view(&self) -> BlogV {
        BlogV {
            id: self.id@,
            text: self.text@,
            raw: self.raw@,
            source: self.source@,
            region: self.region@,
            create: self.create@,
            page: self.page@,
            pictures: self.pictures@.map_values(|p: Picture| p@),
        }
    }
}

/// Profile metadata, decoded once per crawl. `cid` is the feed container
/// identifier needed to address the user's post feed; empty means the
/// profile carried no feed address.
#[derive(Debug, Clone, PartialEq, Eq)]
pub struct UserInfo {
    pub id: u32,
    pub name: String,
    pub gender: char,
    pub description: String,
    pub follow: u32,
    pub follower: String,
    pub profile: String,
    pub cover: String,
    pub avatar: String,
    pub cid: String,
}

/// The mathematical view of a `UserInfo`.
pub struct UserInfoV {
    pub id: u32,
    pub name: Seq<char>,
    pub gender: char,
    pub description: Seq<char>,
    pub follow: u32,
    pub follower: Seq<char>,
    pub profile: Seq<char>,
    pub cover: Seq<char>,
    pub avatar: Seq<char>,
    pub cid: Seq<char>,
}

impl View for UserInfo {
    type V = UserInfoV;

    open spec fn view(&self) -> UserInfoV {
        UserInfoV {
            id: self.id,
            name: self.name@,
            gender: self.gender,
            description: self.description@,
            follow: self.follow,
            follower: self.follower@,
            profile: self.profile@,
            cover: self.cover@,
            avatar: self.avatar@,
            cid: self.cid@,
        }
    }
}

impl Blog {
    pub fn new(
        id: String,
        text: String,
        raw: String,
        source: String,
        region: String,
        create: String,
        page: String,
        pictures: Vec<Picture>,
    ) -> (r: Self)
        ensures
            r@ == (BlogV {
                id: id@,
                text: text@,
                raw: raw@,
                source: source@,
                region: region@,
                create: create@,
                page: page@,
                pictures: pictures@.map_values(|p: Picture| p@),
            }),
    {
        Self { id, text, raw, source, region, create, page, pictures }
    }
}

impl UserInfo {
    pub fn new(
        id: u32,
        name: String,
        gender: char,
        description: String,
        follow: u32,
        follower: String,
        profile: String,
        cover: String,
        avatar: String,
        cid: String,
    ) -> (r: Self)
        ensures
            r@ == (UserInfoV {
                id,
                name: name@,
                gender,
                description: description@,
                follow,
                follower: follower@,
                profile: profile@,
                cover: cover@,
                avatar: avatar@,
                cid: cid@,
            }),
    {
        Self { id, name, gender, description, follow, follower, profile, cover, avatar, cid }
    }
}

impl Picture {
    pub fn new(id: String, normal: String, large: String, video: String) -> (r: Self)
        ensures
            r@ == (PictureV { id: id@, normal: normal@, large: large@, video: video@ }),
    {
        Self { id, normal, large, video }
    }

    /// A reference that carries only the normal-resolution address.
    pub fn default(id: String, normal: String) -> (r: Self)
        ensures
            r@ == (PictureV {
                id: id@,
                normal: normal@,
                large: Seq::<char>::empty(),
                video: Seq::<char>::empty(),
            }),
    {
        Self::new(id, normal, String::new(), String::new())
    }
}

/// One planned transfer: fetch `url`, persist at `path`.
#[derive(Debug, Clone, PartialEq, Eq)]
pub struct DownloadJob {
    pub url: String,
    pub path: String,
}

/// The mathematical view of a `DownloadJob`.
pub struct JobV {
    pub url: Seq<char>,
    pub path: Seq<char>,
}

impl View for DownloadJob {
    type V = JobV;

    open spec fn view(&self) -> JobV {
        JobV { url: self.url@, path: self.path@ }
    }
}

/// The destination for a variant: directory, separator, media identifier,
/// variant suffix, a dot, and the source address's file extension.
pub open spec fn job_path(dir: Seq<char>, id: Seq<char>, suffix: Seq<char>, url: Seq<char>) -> Seq<
    char,
> {
    dir + seq!['/'] + id + suffix + seq!['.'] + ext_of(url)
}

/// The downloads one media reference calls for, into directory `dir`: one
/// per populated address, normal then large then video, each named after
/// the media identifier with a variant suffix for the non-default variants.
pub open spec fn picture_jobs(p: PictureV, dir: Seq<char>) -> Seq<JobV> {
    (if p.normal.len() > 0 {
        seq![JobV { url: p.normal, path: job_path(dir, p.id, Seq::empty(), p.normal) }]
    } else {
        Seq::empty()
    }) + (if p.large.len() > 0 {
        seq![
            JobV {
                url: p.large,
                path: job_path(dir, p.id, seq!['-', 'l', 'a', 'r', 'g', 'e'], p.large),
            },
        ]
    } else {
        Seq::empty()
    }) + (if p.video.len() > 0 {
        seq![
            JobV {
                url: p.video,
                path: job_path(dir, p.id, seq!['-', 'v', 'i', 'd', 'e', 'o'], p.video),
            },
        ]
    } else {
        Seq::empty()
    })
}

/// A media reference with no address at all plans no download; this is not
/// an error.
pub proof fn lemma_empty_picture_plans_nothing(p: PictureV, dir: Seq<char>)
    requires
        p.normal.len() == 0,
        p.large.len() == 0,
        p.video.len() == 0,
    ensures
        picture_jobs(p, dir).len() == 0,
{
}

proof fn lemma_job_path_char(dir: Seq<char>, id: Seq<char>, suffix: Seq<char>, url: Seq<char>, t: int)
    requires
        0 <= t <= suffix.len(),
    ensures
        job_path(dir, id, suffix, url).len() > dir.len() + 1 + id.len() + t,
        job_path(dir, id, suffix, url)[dir.len() + 1 + id.len() + t] == (suffix + seq!['.'])[t],
{
}

/// The variant suffixes keep one media reference's planned files disjoint:
/// however many variants are present, no two of its jobs share a path, so
/// concurrent downloads of one reference write disjoint files.
pub proof fn lemma_picture_job_paths_distinct(p: PictureV, dir: Seq<char>)
    ensures
        forall|i: int, j: int| 0 <= i < j < picture_jobs(p, dir).len()
            ==> (#[trigger] picture_jobs(p, dir)[i]).path != (#[trigger] picture_jobs(p, dir)[j]).path,
{
    let none: Seq<char> = Seq::empty();
    let large = seq!['-', 'l', 'a', 'r', 'g', 'e'];
    let video = seq!['-', 'v', 'i', 'd', 'e', 'o'];
    let k = dir.len() + 1 + p.id.len();
    lemma_job_path_char(dir, p.id, none, p.normal, 0);
    lemma_job_path_char(dir, p.id, large, p.large, 0);
    lemma_job_path_char(dir, p.id, large, p.large, 1);
    lemma_job_path_char(dir, p.id, video, p.video, 0);
    lemma_job_path_char(dir, p.id, video, p.video, 1);
    assert(job_path(dir, p.id, none, p.normal)[k as int] == '.');
    assert(job_path(dir, p.id, large, p.large)[k as int] == '-');
    assert(job_path(dir, p.id, video, p.video)[k as int] == '-');
    assert(job_path(dir, p.id, large, p.large)[k as int + 1] == 'l');
    assert(job_path(dir, p.id, video, p.video)[k as int + 1] == 'v');
}

impl Picture {
    /// Plans the downloads for this reference into directory `path`.
    pub fn download_await(&self, path: String) -> (jobs: Vec<DownloadJob>)
        ensures
            jobs@.map_values(|j: DownloadJob| j@) == picture_jobs(self@, path@),
    {
        let mut jobs: Vec<DownloadJob> = Vec::new();
        if !self.normal.as_str().is_empty() {
            let mut p = path.clone();
            p.append("/");
            p.append(self.id.as_str());
            p.append(".");
            let ext = extension_of(self.normal.as_str());
            p.append(ext.as_str());
            proof {
                reveal_strlit("/");
                reveal_strlit(".");
                assert(p@ =~= job_path(path@, self.id@, Seq::empty(), self.normal@));
            }
            jobs.push(DownloadJob { url: self.normal.clone(), path: p });
        }
        if !self.large.as_str().is_empty() {
            let mut p = path.clone();
            p.append("/");
            p.append(self.id.as_str());
            p.append("-large");
            p.append(".");
            let ext = extension_of(self.large.as_str());
            p.append(ext.as_str());
            proof {
                reveal_strlit("/");
                reveal_strlit(".");
                reveal_strlit("-large");
                assert(p@ =~= job_path(
                    path@,
                    self.id@,
                    seq!['-', 'l', 'a', 'r', 'g', 'e'],
                    self.large@,
                ));
            }
            jobs.push(DownloadJob { url: self.large.clone(), path: p });
        }
        if !self.video.as_str().is_empty() {
            let mut p = path.clone();
            p.append("/");
            p.append(self.id.as_str());
            p.append("-video");
            p.append(".");
            let ext = extension_of(self.video.as_str());
            p.append(ext.as_str());
            proof {
                reveal_strlit("/");
                reveal_strlit(".");
                reveal_strlit("-video");
                assert(p@ =~= job_path(
                    path@,
                    self.id@,
                    seq!['-', 'v', 'i', 'd', 'e', 'o'],
                    self.video@,
                ));
            }
            jobs.push(DownloadJob { url: self.video.clone(), path: p });
        }
        proof {
            assert(jobs@.map_values(|j: DownloadJob| j@) =~= picture_jobs(self@, path@));
        }
        jobs
    }
}

/// The downloads a whole post calls for: each media reference is planned
/// into a directory named after its position within the post.
pub open spec fn blog_jobs_upto(pics: Seq<PictureV>, k: int) -> Seq<JobV>
    decreases k,
{
    if k <= 0 {
        Seq::empty()
    } else {
        blog_jobs_upto(pics, k - 1) + picture_jobs(pics[k - 1], dec_str((k - 1) as nat))
    }
}

/// All downloads of a post, media references in source order.
pub open spec fn blog_jobs(b: BlogV) -> Seq<JobV> {
    blog_jobs_upto(b.pictures, b.pictures.len() as int)
}

impl Blog {
    /// Plans the downloads for every media reference of this post.
    pub fn download_await(&self) -> (jobs: Vec<DownloadJob>)
        ensures
            jobs@.map_values(|j: DownloadJob| j@) == blog_jobs(self@),
    {
        let mut jobs: Vec<DownloadJob> = Vec::new();
        let n = self.pictures.len();
        for i in 0..n
            invariant
                n == self.pictures.len(),
                jobs@.map_values(|j: DownloadJob| j@) =~= blog_jobs_upto(
                    self@.pictures,
                    i as int,
                ),
        {
            let dir = u64_to_string(i as u64);
            let mut batch = self.pictures[i].download_await(dir);
            let ghost old_jobs = jobs@;
            let ghost batch_view = batch@;
            jobs.append(&mut batch);
            proof {
                assert(jobs@ =~= old_jobs + batch_view);
                assert(jobs@.map_values(|j: DownloadJob| j@) =~= old_jobs.map_values(
                    |j: DownloadJob| j@,
                ) + batch_view.map_values(|j: DownloadJob| j@));
                assert(self@.pictures[i as int] == self.pictures@[i as int]@);
            }
        }
        jobs
    }
}

/// What a decoded response carries: profile metadata, or one page of posts
/// together with the next pagination cursor (empty cursor: no more pages).
#[derive(Debug, Clone, PartialEq, Eq)]
pub enum SpiderResult {
    UserInfo(UserInfo),
    BlogList(Vec<Blog>, String),
}

/// The mathematical view of a `SpiderResult`.
pub enum SpiderResultV {
    UserInfo(UserInfoV),
    BlogList(Seq<BlogV>, Seq<char>),
}

impl View for SpiderResult {
    type V = SpiderResultV;

    open spec fn view(&self) -> SpiderResultV {
        match self {
            SpiderResult::UserInfo(u) => SpiderResultV::UserInfo(u@),
            SpiderResult::BlogList(blogs, cursor) => SpiderResultV::BlogList(
                blogs@.map_values(|b: Blog| b@),
                cursor@,
            ),
        }
    }
}

/// The two requests the crawl makes, each with its own decoder.
#[derive(Debug, Clone, Copy, PartialEq, Eq, Structural)]
pub enum RequestKind {
    ProfileLookup,
    PageLookup,
}

/// One request description: endpoint path, method, query parameters in
/// insertion order, and which decoder interprets the response.
#[derive(Debug, Clone, PartialEq, Eq)]
pub struct Mapper {
    pub path: String,
    pub method: String,
    pub params: Vec<(String, String)>,
    pub handler: RequestKind,
}

/// The mathematical view of a `Mapper`.
pub struct MapperV {
    pub path: Seq<char>,
    pub method: Seq<char>,
    pub params: Seq<(Seq<char>, Seq<char>)>,
    pub handler: RequestKind,
}

impl View for Mapper {
    type V = MapperV;

    open spec fn view(&self) -> MapperV {
        MapperV {
            path: self.path@,
            method: self.method@,
            params: self.params@.map_values(|p: (String, String)| (p.0@, p.1@)),
            handler: self.handler,
        }
    }
}

/// The address a request description stands for, relative to the origin.
pub open spec fn sub_url_of(m: MapperV) -> Seq<char> {
    m.path + seq!['?'] + query_string(m.params)
}

impl Mapper {
    pub fn new(path: String, method: String, params: Vec<(String, String)>, handler: RequestKind)
        -> (r: Self)
        ensures
            r@ == (MapperV {
                path: path@,
                method: method@,
                params: params@.map_values(|p: (String, String)| (p.0@, p.1@)),
                handler,
            }),
    {
        Self { path, method, params, handler }
    }

    /// The path-and-query part of the request's address.
    pub fn sub_url(&self) -> (r: String)
        ensures
            r@ == sub_url_of(self@),
    {
        let mut s = self.path.clone();
        s.append("?");
        let q = join_query(&self.params);
        s.append(q.as_str());
        proof {
            reveal_strlit("?");
            assert(s@ =~= sub_url_of(self@));
        }
        s
    }
}

/// The crawler: an origin, and the request descriptions it addresses
/// relative to that origin.
#[derive(Debug, Clone, PartialEq, Eq)]
pub struct Spider {
    pub origin: String,
    pub mappers: Vec<Mapper>,
}

/// The mathematical view of a `Spider`.
pub struct SpiderV {
    pub origin: Seq<char>,
    pub mappers: Seq<MapperV>,
}

impl View for Spider {
    type V = SpiderV;

    open spec fn view(&self) -> SpiderV {
        SpiderV {
            origin: self.origin@,
            mappers: self.mappers@.map_values(|m: Mapper| m@),
        }
    }
}

impl Spider {
    pub fn new(origin: String, mappers: Vec<Mapper>) -> (r: Self)
        ensures
            r@ == (SpiderV {
                origin: origin@,
                mappers: mappers@.map_values(|m: Mapper| m@),
            }),
    {
        Self { origin, mappers }
    }

    /// The full address of one request: origin followed by path and query.
    pub fn full_url(&self, mapper: &Mapper) -> (r: String)
        ensures
            r@ == self@.origin + sub_url_of(mapper@),
    {
        let mut s = self.origin.clone();
        let sub = mapper.sub_url();
        s.append(sub.as_str());
        s
    }
}

} // verus!
