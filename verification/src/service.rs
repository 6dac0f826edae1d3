//! The response decoders and the request builders.
//!
//! Both decoders are total functions from a parsed payload to a domain
//! result or a `DecodeError`: a missing leaf decodes to an empty string, a
//! number standing where text is expected (or text where a number is) is
//! coerced, and only a value that cannot be coerced fails — and then the
//! error names the field.

use vstd::prelude::*;

use crate::json::{jget, jval_of, jval_of_entries, jval_of_seq, jval_of_text};
use crate::json::{lemma_jval_of_entries, lemma_jval_of_seq, JVal, Json};
use crate::model::{Blog, BlogV, Mapper, Picture, PictureV, RequestKind};
use crate::model::{SpiderResult, SpiderResultV, UserInfo, UserInfoV};
use crate::text::{all_digits, dec_str, dec_value};
use crate::text::{parse_u32, u64_to_string};

verus! {

/// The payload field a decode failure names.
#[derive(Debug, Clone, Copy, PartialEq, Eq, Structural)]
pub enum Field {
    Container,
    Id,
    Name,
    Gender,
    Description,
    Follow,
    Follower,
    Profile,
    Cover,
    Avatar,
    Cards,
    Cursor,
    PostId,
    Text,
    Raw,
    Source,
    Region,
    Create,
    Page,
    PicId,
    PicNormal,
    PicLarge,
    PicVideo,
}

/// Why a payload did not decode: it was not a JSON document at all, or a
/// required field was missing or of an uncoercible type.
#[derive(Debug, Clone, Copy, PartialEq, Eq, Structural)]
pub enum DecodeError {
    Syntax,
    Field(Field),
}

/// Why a fetch failed: a non-success status, a transport fault, or a
/// response that did not decode.
#[derive(Debug, Clone, Copy, PartialEq, Eq, Structural)]
pub enum FetchError {
    Http(u16),
    Transport,
    Decode(DecodeError),
}

/// Text coercion: absent becomes empty, text stays, an unsigned number is
/// rendered in decimal; anything else cannot stand for text.
pub open spec fn coerce_str(v: JVal) -> Option<Seq<char>> {
    match v {
        JVal::Null => Some(Seq::<char>::empty()),
        JVal::Str(s) => Some(s),
        JVal::Num(n) => match n {
            Some(m) => Some(dec_str(m as nat)),
            None => None,
        },
        _ => None,
    }
}

/// Count coercion: an unsigned number in range stays, a digit string in
/// range is read; anything else cannot stand for a count.
pub open spec fn coerce_u32(v: JVal) -> Option<u32> {
    match v {
        JVal::Num(n) => match n {
            Some(m) => if m <= u32::MAX {
                Some(m as u32)
            } else {
                None
            },
            None => None,
        },
        JVal::Str(s) => if s.len() > 0 && all_digits(s) && dec_value(s) <= u32::MAX {
            Some(dec_value(s) as u32)
        } else {
            None
        },
        _ => None,
    }
}

/// Gender marker: the first character of the coerced text; empty text
/// carries no marker.
pub open spec fn coerce_gender(v: JVal) -> Option<char> {
    match coerce_str(v) {
        Some(s) => if s.len() > 0 {
            Some(s[0])
        } else {
            None
        },
        None => None,
    }
}

/// Pagination cursor: absent means end of feed (empty), a number is
/// rendered in decimal; any other shape is not a cursor.
pub open spec fn coerce_cursor(v: JVal) -> Option<Seq<char>> {
    match v {
        JVal::Null => Some(Seq::<char>::empty()),
        JVal::Num(n) => match n {
            Some(m) => Some(dec_str(m as nat)),
            None => None,
        },
        _ => None,
    }
}

/// The view of an optional node: absent reads as `Null`.
pub open spec fn opt_jval(o: Option<&Json>) -> JVal {
    match o {
        Some(j) => j@,
        None => JVal::Null,
    }
}

/// Steps one key down from an optional node.
fn jchild<'a>(o: Option<&'a Json>, key: &str) -> (r: Option<&'a Json>)
    ensures
        opt_jval(r) == jget(opt_jval(o), key@),
{
    match o {
        Some(j) => j.get(key),
        None => None,
    }
}

/// Reads a text field, as `coerce_str` names it.
fn get_str_of(o: Option<&Json>) -> (r: Option<String>)
    ensures
        match r {
            Some(s) => coerce_str(opt_jval(o)) == Some(s@),
            None => coerce_str(opt_jval(o)) is None,
        },
{
    match o {
        None => Some(String::new()),
        Some(j) => match j {
            Json::Null => Some(String::new()),
            Json::Str(s) => Some(s.clone()),
            Json::Num(n) => match n {
                Some(m) => Some(u64_to_string(*m)),
                None => None,
            },
            _ => None,
        },
    }
}

/// Reads a count field, as `coerce_u32` names it.
fn get_u32_of(o: Option<&Json>) -> (r: Option<u32>)
    ensures
        r == coerce_u32(opt_jval(o)),
{
    match o {
        None => None,
        Some(j) => match j {
            Json::Num(n) => match n {
                Some(m) => if *m <= 0xffff_ffffu64 {
                    Some(*m as u32)
                } else {
                    None
                },
                None => None,
            },
            Json::Str(s) => parse_u32(s.as_str()),
            _ => None,
        },
    }
}

/// Reads a gender marker, as `coerce_gender` names it.
fn get_gender_of(o: Option<&Json>) -> (r: Option<char>)
    ensures
        r == coerce_gender(opt_jval(o)),
{
    match get_str_of(o) {
        Some(s) => {
            if s.as_str().is_empty() {
                None
            } else {
                Some(s.as_str().get_char(0))
            }
        },
        None => None,
    }
}

/// Reads a cursor field, as `coerce_cursor` names it.
fn get_cursor_of(o: Option<&Json>) -> (r: Option<String>)
    ensures
        match r {
            Some(s) => coerce_cursor(opt_jval(o)) == Some(s@),
            None => coerce_cursor(opt_jval(o)) is None,
        },
{
    match o {
        None => Some(String::new()),
        Some(j) => match j {
            Json::Null => Some(String::new()),
            Json::Num(n) => match n {
                Some(m) => Some(u64_to_string(*m)),
                None => None,
            },
            _ => None,
        },
    }
}

/// The feed tab's type marker, compared without regard to ASCII case.
pub open spec fn is_weibo_marker(s: Seq<char>) -> bool {
    s.len() == 5 && (s[0] == 'w' || s[0] == 'W') && (s[1] == 'e' || s[1] == 'E') && (s[2] == 'i'
        || s[2] == 'I') && (s[3] == 'b' || s[3] == 'B') && (s[4] == 'o' || s[4] == 'O')
}

/// Whether a tab entry is the feed tab.
pub open spec fn tab_matches(t: JVal) -> bool {
    jget(t, "tab_type"@) matches JVal::Str(s) && is_weibo_marker(s)
}

/// The container identifier carried by the last feed tab, or `None` when no
/// tab is the feed tab.
pub open spec fn scan_tabs(ts: Seq<JVal>) -> Option<JVal>
    decreases ts.len(),
{
    if ts.len() == 0 {
        None
    } else if tab_matches(ts.last()) {
        Some(jget(ts.last(), "containerid"@))
    } else {
        scan_tabs(ts.drop_last())
    }
}

/// The feed container identifier of a profile payload: empty when the tabs
/// list is missing, not a list, or holds no feed tab; `None` when the feed
/// tab's container identifier cannot be coerced to text.
pub open spec fn cid_of(j: JVal) -> Option<Seq<char>> {
    match jget(jget(jget(j, "data"@), "tabsInfo"@), "tabs"@) {
        JVal::Arr(ts) => match scan_tabs(ts) {
            None => Some(Seq::<char>::empty()),
            Some(v) => coerce_str(v),
        },
        _ => Some(Seq::<char>::empty()),
    }
}

/// What a profile payload decodes to: each field is read from the user
/// object under the payload's data, coerced to its declared type, and the
/// first field that cannot be coerced names the error; the feed container
/// identifier comes from the tabs scan and may be empty.
pub open spec fn decode_profile_jv(j: JVal) -> Result<UserInfoV, DecodeError> {
    let ui = jget(jget(j, "data"@), "userInfo"@);
    if cid_of(j) is None {
        Err(DecodeError::Field(Field::Container))
    } else if coerce_u32(jget(ui, "id"@)) is None {
        Err(DecodeError::Field(Field::Id))
    } else if coerce_str(jget(ui, "screen_name"@)) is None {
        Err(DecodeError::Field(Field::Name))
    } else if coerce_gender(jget(ui, "gender"@)) is None {
        Err(DecodeError::Field(Field::Gender))
    } else if coerce_str(jget(ui, "description"@)) is None {
        Err(DecodeError::Field(Field::Description))
    } else if coerce_u32(jget(ui, "follow_count"@)) is None {
        Err(DecodeError::Field(Field::Follow))
    } else if coerce_str(jget(ui, "followers_count"@)) is None {
        Err(DecodeError::Field(Field::Follower))
    } else if coerce_str(jget(ui, "profile_url"@)) is None {
        Err(DecodeError::Field(Field::Profile))
    } else if coerce_str(jget(ui, "cover_image_phone"@)) is None {
        Err(DecodeError::Field(Field::Cover))
    } else if coerce_str(jget(ui, "avatar_hd"@)) is None {
        Err(DecodeError::Field(Field::Avatar))
    } else {
        Ok(UserInfoV {
            id: coerce_u32(jget(ui, "id"@))->Some_0,
            name: coerce_str(jget(ui, "screen_name"@))->Some_0,
            gender: coerce_gender(jget(ui, "gender"@))->Some_0,
            description: coerce_str(jget(ui, "description"@))->Some_0,
            follow: coerce_u32(jget(ui, "follow_count"@))->Some_0,
            follower: coerce_str(jget(ui, "followers_count"@))->Some_0,
            profile: coerce_str(jget(ui, "profile_url"@))->Some_0,
            cover: coerce_str(jget(ui, "cover_image_phone"@))->Some_0,
            avatar: coerce_str(jget(ui, "avatar_hd"@))->Some_0,
            cid: cid_of(j)->Some_0,
        })
    }
}

/// Whether a tab entry is the feed tab, as `tab_matches` states it.
fn tab_matches_exec(t: &Json) -> (r: bool)
    ensures
        r == tab_matches(t@),
{
    match jchild(Some(t), "tab_type") {
        Some(node) => match node {
            Json::Str(s) => {
                let m = s.as_str();
                if m.unicode_len() != 5 {
                    return false;
                }
                let c0 = m.get_char(0);
                let c1 = m.get_char(1);
                let c2 = m.get_char(2);
                let c3 = m.get_char(3);
                let c4 = m.get_char(4);
                (c0 == 'w' || c0 == 'W') && (c1 == 'e' || c1 == 'E') && (c2 == 'i' || c2 == 'I')
                    && (c3 == 'b' || c3 == 'B') && (c4 == 'o' || c4 == 'O')
            },
            _ => false,
        },
        None => false,
    }
}

/// Scans the tabs list for the feed container identifier, as `cid_of`
/// names it.
fn cid_of_exec(j: &Json) -> (r: Option<String>)
    ensures
        match r {
            Some(s) => cid_of(j@) == Some(s@),
            None => cid_of(j@) is None,
        },
{
    let tabs_node = jchild(jchild(jchild(Some(j), "data"), "tabsInfo"), "tabs");
    match tabs_node {
        Some(node) => match node {
            Json::Arr(tabs) => {
                let ghost ts = node@->Arr_0;
                proof {
                    lemma_jval_of_seq(tabs@);
                    assert(ts.subrange(0, 0) =~= Seq::<JVal>::empty());
                }
                let n = tabs.len();
                let mut best: Option<Option<&Json>> = None;
                for i in 0..n
                    invariant
                        n == tabs.len(),
                        node@ is Arr,
                        ts == node@->Arr_0,
                        ts == jval_of_seq(tabs@),
                        ts.len() == n,
                        forall|k: int| 0 <= k < n ==> ts[k] == jval_of(tabs@[k]),
                        match best {
                            None => scan_tabs(ts.subrange(0, i as int)) is None,
                            Some(o) => scan_tabs(ts.subrange(0, i as int)) == Some(opt_jval(o)),
                        },
                {
                    proof {
                        let p = ts.subrange(0, i + 1);
                        assert(p.drop_last() =~= ts.subrange(0, i as int));
                        assert(p.last() == ts[i as int]);
                    }
                    if tab_matches_exec(&tabs[i]) {
                        best = Some(jchild(Some(&tabs[i]), "containerid"));
                    }
                }
                proof {
                    assert(ts.subrange(0, n as int) =~= ts);
                }
                match best {
                    None => Some(String::new()),
                    Some(o) => get_str_of(o),
                }
            },
            _ => Some(String::new()),
        },
        None => Some(String::new()),
    }
}

/// Decodes a profile payload, as `decode_profile_jv` states it.
pub fn decode_profile(j: &Json) -> (r: Result<UserInfo, DecodeError>)
    ensures
        match r {
            Ok(u) => decode_profile_jv(j@) == Ok::<UserInfoV, DecodeError>(u@),
            Err(e) => decode_profile_jv(j@) == Err::<UserInfoV, DecodeError>(e),
        },
{
    let cid = match cid_of_exec(j) {
        Some(c) => c,
        None => {
            return Err(DecodeError::Field(Field::Container));
        },
    };
    let ui = jchild(jchild(Some(j), "data"), "userInfo");
    let id = match get_u32_of(jchild(ui, "id")) {
        Some(v) => v,
        None => {
            return Err(DecodeError::Field(Field::Id));
        },
    };
    let name = match get_str_of(jchild(ui, "screen_name")) {
        Some(v) => v,
        None => {
            return Err(DecodeError::Field(Field::Name));
        },
    };
    let gender = match get_gender_of(jchild(ui, "gender")) {
        Some(v) => v,
        None => {
            return Err(DecodeError::Field(Field::Gender));
        },
    };
    let description = match get_str_of(jchild(ui, "description")) {
        Some(v) => v,
        None => {
            return Err(DecodeError::Field(Field::Description));
        },
    };
    let follow = match get_u32_of(jchild(ui, "follow_count")) {
        Some(v) => v,
        None => {
            return Err(DecodeError::Field(Field::Follow));
        },
    };
    let follower = match get_str_of(jchild(ui, "followers_count")) {
        Some(v) => v,
        None => {
            return Err(DecodeError::Field(Field::Follower));
        },
    };
    let profile = match get_str_of(jchild(ui, "profile_url")) {
        Some(v) => v,
        None => {
            return Err(DecodeError::Field(Field::Profile));
        },
    };
    let cover = match get_str_of(jchild(ui, "cover_image_phone")) {
        Some(v) => v,
        None => {
            return Err(DecodeError::Field(Field::Cover));
        },
    };
    let avatar = match get_str_of(jchild(ui, "avatar_hd")) {
        Some(v) => v,
        None => {
            return Err(DecodeError::Field(Field::Avatar));
        },
    };
    Ok(UserInfo::new(id, name, gender, description, follow, follower, profile, cover, avatar, cid))
}

/// What one media entry decodes to: the identifier and the three variant
/// addresses, each coerced to text, missing ones empty.
pub open spec fn decode_pic_jv(p: JVal) -> Result<PictureV, DecodeError> {
    if coerce_str(jget(p, "pid"@)) is None {
        Err(DecodeError::Field(Field::PicId))
    } else if coerce_str(jget(p, "url"@)) is None {
        Err(DecodeError::Field(Field::PicNormal))
    } else if coerce_str(jget(jget(p, "large"@), "url"@)) is None {
        Err(DecodeError::Field(Field::PicLarge))
    } else if coerce_str(jget(p, "videoSrc"@)) is None {
        Err(DecodeError::Field(Field::PicVideo))
    } else {
        Ok(PictureV {
            id: coerce_str(jget(p, "pid"@))->Some_0,
            normal: coerce_str(jget(p, "url"@))->Some_0,
            large: coerce_str(jget(jget(p, "large"@), "url"@))->Some_0,
            video: coerce_str(jget(p, "videoSrc"@))->Some_0,
        })
    }
}

/// Decodes a run of media entries in order; the first entry that fails
/// names the error.
pub open spec fn decode_pics_jv(ps: Seq<JVal>) -> Result<Seq<PictureV>, DecodeError>
    decreases ps.len(),
{
    if ps.len() == 0 {
        Ok(Seq::<PictureV>::empty())
    } else {
        match decode_pics_jv(ps.drop_last()) {
            Err(e) => Err(e),
            Ok(rest) => match decode_pic_jv(ps.last()) {
                Err(e) => Err(e),
                Ok(p) => Ok(rest.push(p)),
            },
        }
    }
}

/// The media references of one card. The media field may be absent (no
/// media), a list (source order), or a keyed mapping (the mapping's own
/// entry order); both populated shapes normalize to the same ordered run.
pub open spec fn media_of_card(card: JVal) -> Result<Seq<PictureV>, DecodeError> {
    match jget(jget(card, "mblog"@), "pics"@) {
        JVal::Arr(ps) => decode_pics_jv(ps),
        JVal::Obj(kvs) => decode_pics_jv(kvs.map_values(|e: (Seq<char>, JVal)| e.1)),
        _ => Ok(Seq::<PictureV>::empty()),
    }
}

/// What one card decodes to: its media, then each text field coerced,
/// missing leaves empty.
pub open spec fn decode_card_jv(card: JVal) -> Result<BlogV, DecodeError> {
    let mblog = jget(card, "mblog"@);
    match media_of_card(card) {
        Err(e) => Err(e),
        Ok(pics) => {
            if coerce_str(jget(mblog, "id"@)) is None {
                Err(DecodeError::Field(Field::PostId))
            } else if coerce_str(jget(mblog, "text"@)) is None {
                Err(DecodeError::Field(Field::Text))
            } else if coerce_str(jget(mblog, "raw_text"@)) is None {
                Err(DecodeError::Field(Field::Raw))
            } else if coerce_str(jget(mblog, "source"@)) is None {
                Err(DecodeError::Field(Field::Source))
            } else if coerce_str(jget(mblog, "region"@)) is None {
                Err(DecodeError::Field(Field::Region))
            } else if coerce_str(jget(mblog, "create_at"@)) is None {
                Err(DecodeError::Field(Field::Create))
            } else if coerce_str(jget(card, "scheme"@)) is None {
                Err(DecodeError::Field(Field::Page))
            } else {
                Ok(BlogV {
                    id: coerce_str(jget(mblog, "id"@))->Some_0,
                    text: coerce_str(jget(mblog, "text"@))->Some_0,
                    raw: coerce_str(jget(mblog, "raw_text"@))->Some_0,
                    source: coerce_str(jget(mblog, "source"@))->Some_0,
                    region: coerce_str(jget(mblog, "region"@))->Some_0,
                    create: coerce_str(jget(mblog, "create_at"@))->Some_0,
                    page: coerce_str(jget(card, "scheme"@))->Some_0,
                    pictures: pics,
                })
            }
        },
    }
}

/// Decodes a run of cards in order; the first card that fails names the
/// error.
pub open spec fn decode_cards_jv(cs: Seq<JVal>) -> Result<Seq<BlogV>, DecodeError>
    decreases cs.len(),
{
    if cs.len() == 0 {
        Ok(Seq::<BlogV>::empty())
    } else {
        match decode_cards_jv(cs.drop_last()) {
            Err(e) => Err(e),
            Ok(rest) => match decode_card_jv(cs.last()) {
                Err(e) => Err(e),
                Ok(b) => Ok(rest.push(b)),
            },
        }
    }
}

/// What a page payload decodes to: one post per card, in card order, and
/// the trailing cursor; a payload without a cards list, a card that cannot
/// be coerced, or a cursor of an unexpected shape is a `DecodeError`.
pub open spec fn decode_page_jv(j: JVal) -> Result<(Seq<BlogV>, Seq<char>), DecodeError> {
    match jget(jget(j, "data"@), "cards"@) {
        JVal::Arr(cs) => match decode_cards_jv(cs) {
            Err(e) => Err(e),
            Ok(blogs) => match coerce_cursor(
                jget(jget(jget(j, "data"@), "cardlistInfo"@), "since_id"@),
            ) {
                None => Err(DecodeError::Field(Field::Cursor)),
                Some(cursor) => Ok((blogs, cursor)),
            },
        },
        _ => Err(DecodeError::Field(Field::Cards)),
    }
}

/// A decoded run of media entries has one reference per entry, in order.
pub proof fn lemma_decode_pics_elementwise(ps: Seq<JVal>, pics: Seq<PictureV>)
    requires
        decode_pics_jv(ps) == Ok::<Seq<PictureV>, DecodeError>(pics),
    ensures
        pics.len() == ps.len(),
        forall|i: int| 0 <= i < ps.len()
            ==> decode_pic_jv(ps[i]) == Ok::<PictureV, DecodeError>(pics[i]),
    decreases ps.len(),
{
    if ps.len() > 0 {
        let rest = decode_pics_jv(ps.drop_last())->Ok_0;
        lemma_decode_pics_elementwise(ps.drop_last(), rest);
        assert(forall|i: int| 0 <= i < ps.len() - 1 ==> ps.drop_last()[i] == ps[i]);
    }
}

/// A decoded run of cards has one post per card, in order.
pub proof fn lemma_decode_cards_elementwise(cs: Seq<JVal>, blogs: Seq<BlogV>)
    requires
        decode_cards_jv(cs) == Ok::<Seq<BlogV>, DecodeError>(blogs),
    ensures
        blogs.len() == cs.len(),
        forall|i: int| 0 <= i < cs.len()
            ==> decode_card_jv(cs[i]) == Ok::<BlogV, DecodeError>(blogs[i]),
    decreases cs.len(),
{
    if cs.len() > 0 {
        let rest = decode_cards_jv(cs.drop_last())->Ok_0;
        lemma_decode_cards_elementwise(cs.drop_last(), rest);
        assert(forall|i: int| 0 <= i < cs.len() - 1 ==> cs.drop_last()[i] == cs[i]);
    }
}

/// A well-formed page payload decodes to exactly as many posts as its
/// cards list holds.
pub proof fn lemma_page_post_count(j: JVal, blogs: Seq<BlogV>, cursor: Seq<char>)
    requires
        decode_page_jv(j) == Ok::<(Seq<BlogV>, Seq<char>), DecodeError>((blogs, cursor)),
    ensures
        jget(jget(j, "data"@), "cards"@) is Arr,
        blogs.len() == jget(jget(j, "data"@), "cards"@)->Arr_0.len(),
{
    let cs = jget(jget(j, "data"@), "cards"@)->Arr_0;
    lemma_decode_cards_elementwise(cs, blogs);
}

/// A decoded post's media references preserve the source order of its
/// card's media field: one reference per entry, in entry order, whether the
/// field was list-shaped or mapping-shaped, and none at all when the field
/// is absent or of another shape.
pub proof fn lemma_post_media_order(card: JVal, b: BlogV)
    requires
        decode_card_jv(card) == Ok::<BlogV, DecodeError>(b),
    ensures
        media_of_card(card) == Ok::<Seq<PictureV>, DecodeError>(b.pictures),
        jget(jget(card, "mblog"@), "pics"@) matches JVal::Arr(ps) ==> b.pictures.len() == ps.len()
            && forall|t: int| 0 <= t < ps.len()
            ==> decode_pic_jv(ps[t]) == Ok::<PictureV, DecodeError>(b.pictures[t]),
        jget(jget(card, "mblog"@), "pics"@) matches JVal::Obj(kvs) ==> b.pictures.len()
            == kvs.len() && forall|t: int| 0 <= t < kvs.len()
            ==> decode_pic_jv(kvs[t].1) == Ok::<PictureV, DecodeError>(b.pictures[t]),
        !(jget(jget(card, "mblog"@), "pics"@) is Arr) && !(jget(jget(card, "mblog"@), "pics"@)
            is Obj) ==> b.pictures.len() == 0,
{
    match jget(jget(card, "mblog"@), "pics"@) {
        JVal::Arr(ps) => {
            lemma_decode_pics_elementwise(ps, b.pictures);
        },
        JVal::Obj(kvs) => {
            let vals = kvs.map_values(|e: (Seq<char>, JVal)| e.1);
            lemma_decode_pics_elementwise(vals, b.pictures);
            assert(forall|t: int| 0 <= t < kvs.len() ==> vals[t] == kvs[t].1);
        },
        _ => {},
    }
}

/// Whether the media field is list-shaped or mapping-shaped, the same
/// entries in the same order decode to the same media references.
pub proof fn lemma_media_shape_agnostic(card_list: JVal, card_map: JVal)
    requires
        jget(jget(card_list, "mblog"@), "pics"@) is Arr,
        jget(jget(card_map, "mblog"@), "pics"@) is Obj,
        jget(jget(card_map, "mblog"@), "pics"@)->Obj_0.map_values(|e: (Seq<char>, JVal)| e.1)
            == jget(jget(card_list, "mblog"@), "pics"@)->Arr_0,
    ensures
        media_of_card(card_list) == media_of_card(card_map),
{
}

/// Decodes one media entry, as `decode_pic_jv` states it.
fn decode_pic(p: &Json) -> (r: Result<Picture, DecodeError>)
    ensures
        match r {
            Ok(pic) => decode_pic_jv(p@) == Ok::<PictureV, DecodeError>(pic@),
            Err(e) => decode_pic_jv(p@) == Err::<PictureV, DecodeError>(e),
        },
{
    let id = match get_str_of(jchild(Some(p), "pid")) {
        Some(v) => v,
        None => {
            return Err(DecodeError::Field(Field::PicId));
        },
    };
    let normal = match get_str_of(jchild(Some(p), "url")) {
        Some(v) => v,
        None => {
            return Err(DecodeError::Field(Field::PicNormal));
        },
    };
    let large = match get_str_of(jchild(jchild(Some(p), "large"), "url")) {
        Some(v) => v,
        None => {
            return Err(DecodeError::Field(Field::PicLarge));
        },
    };
    let video = match get_str_of(jchild(Some(p), "videoSrc")) {
        Some(v) => v,
        None => {
            return Err(DecodeError::Field(Field::PicVideo));
        },
    };
    Ok(Picture::new(id, normal, large, video))
}

/// Decodes a run of media entry nodes, as `decode_pics_jv` states it over
/// their views.
fn decode_pics_from(nodes: Vec<&Json>) -> (r: Result<Vec<Picture>, DecodeError>)
    ensures
        match r {
            Ok(pics) => decode_pics_jv(nodes@.map_values(|p: &Json| p@)) == Ok::<
                Seq<PictureV>,
                DecodeError,
            >(pics@.map_values(|p: Picture| p@)),
            Err(e) => decode_pics_jv(nodes@.map_values(|p: &Json| p@)) == Err::<
                Seq<PictureV>,
                DecodeError,
            >(e),
        },
{
    let ghost vs = nodes@.map_values(|p: &Json| p@);
    let mut out: Vec<Picture> = Vec::new();
    let mut err: Option<DecodeError> = None;
    let n = nodes.len();
    proof {
        assert(vs.subrange(0, 0) =~= Seq::<JVal>::empty());
        assert(out@.map_values(|p: Picture| p@) =~= Seq::<PictureV>::empty());
    }
    for i in 0..n
        invariant
            n == nodes.len(),
            vs == nodes@.map_values(|p: &Json| p@),
            vs.len() == n,
            match err {
                None => decode_pics_jv(vs.subrange(0, i as int)) == Ok::<
                    Seq<PictureV>,
                    DecodeError,
                >(out@.map_values(|p: Picture| p@)),
                Some(e) => decode_pics_jv(vs.subrange(0, i as int)) == Err::<
                    Seq<PictureV>,
                    DecodeError,
                >(e),
            },
    {
        proof {
            let q = vs.subrange(0, i + 1);
            assert(q.drop_last() =~= vs.subrange(0, i as int));
            assert(q.last() == vs[i as int]);
        }
        if err.is_none() {
            match decode_pic(nodes[i]) {
                Ok(pic) => {
                    let ghost old_out = out@;
                    out.push(pic);
                    proof {
                        assert(out@.map_values(|p: Picture| p@) =~= old_out.map_values(
                            |p: Picture| p@,
                        ).push(pic@));
                    }
                },
                Err(e) => {
                    err = Some(e);
                },
            }
        }
    }
    proof {
        assert(vs.subrange(0, n as int) =~= vs);
    }
    match err {
        None => Ok(out),
        Some(e) => Err(e),
    }
}

/// Decodes one card, as `decode_card_jv` states it.
fn decode_card(card: &Json) -> (r: Result<Blog, DecodeError>)
    ensures
        match r {
            Ok(b) => decode_card_jv(card@) == Ok::<BlogV, DecodeError>(b@),
            Err(e) => decode_card_jv(card@) == Err::<BlogV, DecodeError>(e),
        },
{
    let mblog = jchild(Some(card), "mblog");
    let pics_node = jchild(mblog, "pics");
    let media: Result<Vec<Picture>, DecodeError> = match pics_node {
        Some(node) => match node {
            Json::Arr(items) => {
                let mut nodes: Vec<&Json> = Vec::new();
                let m = items.len();
                for k in 0..m
                    invariant
                        m == items.len(),
                        nodes@.len() == k,
                        forall|t: int| 0 <= t < k ==> nodes@[t] == &items@[t],
                {
                    nodes.push(&items[k]);
                }
                proof {
                    lemma_jval_of_seq(items@);
                    assert(nodes@.map_values(|p: &Json| p@) =~= node@->Arr_0);
                }
                decode_pics_from(nodes)
            },
            Json::Obj(entries) => {
                let mut nodes: Vec<&Json> = Vec::new();
                let m = entries.len();
                for k in 0..m
                    invariant
                        m == entries.len(),
                        nodes@.len() == k,
                        forall|t: int| 0 <= t < k ==> nodes@[t] == &entries@[t].1,
                {
                    nodes.push(&entries[k].1);
                }
                proof {
                    lemma_jval_of_entries(entries@);
                    assert(nodes@.map_values(|p: &Json| p@) =~= node@->Obj_0.map_values(
                        |e: (Seq<char>, JVal)| e.1,
                    ));
                }
                decode_pics_from(nodes)
            },
            _ => {
                let none: Vec<Picture> = Vec::new();
                proof {
                    assert(none@.map_values(|p: Picture| p@) =~= Seq::<PictureV>::empty());
                }
                Ok(none)
            },
        },
        None => {
            let none: Vec<Picture> = Vec::new();
            proof {
                assert(none@.map_values(|p: Picture| p@) =~= Seq::<PictureV>::empty());
            }
            Ok(none)
        },
    };
    let pictures = match media {
        Ok(pics) => pics,
        Err(e) => {
            return Err(e);
        },
    };
    let id = match get_str_of(jchild(mblog, "id")) {
        Some(v) => v,
        None => {
            return Err(DecodeError::Field(Field::PostId));
        },
    };
    let text = match get_str_of(jchild(mblog, "text")) {
        Some(v) => v,
        None => {
            return Err(DecodeError::Field(Field::Text));
        },
    };
    let raw = match get_str_of(jchild(mblog, "raw_text")) {
        Some(v) => v,
        None => {
            return Err(DecodeError::Field(Field::Raw));
        },
    };
    let source = match get_str_of(jchild(mblog, "source")) {
        Some(v) => v,
        None => {
            return Err(DecodeError::Field(Field::Source));
        },
    };
    let region = match get_str_of(jchild(mblog, "region")) {
        Some(v) => v,
        None => {
            return Err(DecodeError::Field(Field::Region));
        },
    };
    let create = match get_str_of(jchild(mblog, "create_at")) {
        Some(v) => v,
        None => {
            return Err(DecodeError::Field(Field::Create));
        },
    };
    let page = match get_str_of(jchild(Some(card), "scheme")) {
        Some(v) => v,
        None => {
            return Err(DecodeError::Field(Field::Page));
        },
    };
    Ok(Blog::new(id, text, raw, source, region, create, page, pictures))
}

/// Decodes a page payload, as `decode_page_jv` states it.
pub fn decode_page(j: &Json) -> (r: Result<(Vec<Blog>, String), DecodeError>)
    ensures
        match r {
            Ok(p) => decode_page_jv(j@) == Ok::<(Seq<BlogV>, Seq<char>), DecodeError>(
                (p.0@.map_values(|b: Blog| b@), p.1@),
            ),
            Err(e) => decode_page_jv(j@) == Err::<(Seq<BlogV>, Seq<char>), DecodeError>(e),
        },
{
    let cards_node = jchild(jchild(Some(j), "data"), "cards");
    let cards = match cards_node {
        Some(node) => match node {
            Json::Arr(items) => items,
            _ => {
                return Err(DecodeError::Field(Field::Cards));
            },
        },
        None => {
            return Err(DecodeError::Field(Field::Cards));
        },
    };
    let ghost cs = opt_jval(cards_node)->Arr_0;
    let mut out: Vec<Blog> = Vec::new();
    proof {
        lemma_jval_of_seq(cards@);
        assert(cs.subrange(0, 0) =~= Seq::<JVal>::empty());
        assert(out@.map_values(|b: Blog| b@) =~= Seq::<BlogV>::empty());
    }
    let mut err: Option<DecodeError> = None;
    let n = cards.len();
    for i in 0..n
        invariant
            n == cards.len(),
            cs == jval_of_seq(cards@),
            cs.len() == n,
            forall|k: int| 0 <= k < n ==> cs[k] == jval_of(cards@[k]),
            match err {
                None => decode_cards_jv(cs.subrange(0, i as int)) == Ok::<
                    Seq<BlogV>,
                    DecodeError,
                >(out@.map_values(|b: Blog| b@)),
                Some(e) => decode_cards_jv(cs.subrange(0, i as int)) == Err::<
                    Seq<BlogV>,
                    DecodeError,
                >(e),
            },
    {
        proof {
            let q = cs.subrange(0, i + 1);
            assert(q.drop_last() =~= cs.subrange(0, i as int));
            assert(q.last() == cs[i as int]);
        }
        if err.is_none() {
            match decode_card(&cards[i]) {
                Ok(b) => {
                    let ghost old_out = out@;
                    out.push(b);
                    proof {
                        assert(out@.map_values(|b: Blog| b@) =~= old_out.map_values(
                            |b: Blog| b@,
                        ).push(b@));
                    }
                },
                Err(e) => {
                    err = Some(e);
                },
            }
        }
    }
    proof {
        assert(cs.subrange(0, n as int) =~= cs);
    }
    if let Some(e) = err {
        return Err(e);
    }
    let cursor = match get_cursor_of(
        jchild(jchild(jchild(Some(j), "data"), "cardlistInfo"), "since_id"),
    ) {
        Some(c) => c,
        None => {
            return Err(DecodeError::Field(Field::Cursor));
        },
    };
    Ok((out, cursor))
}

/// A success (2xx) response status.
pub open spec fn is_success_status(status: u16) -> bool {
    200 <= status < 300
}

/// What a profile fetch yields once the transport is done: a non-success
/// status is an `Http` failure, an unparseable body a `Syntax` error, and
/// otherwise the payload decodes as `decode_profile_jv` states.
pub open spec fn profile_outcome(status: u16, body: Seq<char>) -> Result<UserInfoV, FetchError> {
    if !is_success_status(status) {
        Err(FetchError::Http(status))
    } else {
        match jval_of_text(body) {
            None => Err(FetchError::Decode(DecodeError::Syntax)),
            Some(j) => match decode_profile_jv(j) {
                Ok(u) => Ok(u),
                Err(e) => Err(FetchError::Decode(e)),
            },
        }
    }
}

/// What a page fetch yields once the transport is done, as
/// `profile_outcome` but through `decode_page_jv`.
pub open spec fn page_outcome(status: u16, body: Seq<char>) -> Result<
    (Seq<BlogV>, Seq<char>),
    FetchError,
> {
    if !is_success_status(status) {
        Err(FetchError::Http(status))
    } else {
        match jval_of_text(body) {
            None => Err(FetchError::Decode(DecodeError::Syntax)),
            Some(j) => match decode_page_jv(j) {
                Ok(p) => Ok(p),
                Err(e) => Err(FetchError::Decode(e)),
            },
        }
    }
}

/// Re-decoding the same response yields the same profile result: the
/// outcome is a function of status and body alone, with no hidden state.
pub proof fn lemma_profile_outcome_deterministic(
    status: u16,
    body: Seq<char>,
    r1: Result<UserInfoV, FetchError>,
    r2: Result<UserInfoV, FetchError>,
)
    requires
        r1 == profile_outcome(status, body),
        r2 == profile_outcome(status, body),
    ensures
        r1 == r2,
{
}

/// Re-decoding the same response yields the same page result, posts and
/// cursor included.
pub proof fn lemma_page_outcome_deterministic(
    status: u16,
    body: Seq<char>,
    r1: Result<(Seq<BlogV>, Seq<char>), FetchError>,
    r2: Result<(Seq<BlogV>, Seq<char>), FetchError>,
)
    requires
        r1 == page_outcome(status, body),
        r2 == page_outcome(status, body),
    ensures
        r1 == r2,
{
}

/// Interprets one response by the request kind it answers: checks the
/// status, parses the body, and decodes it with the kind's own decoder.
pub fn decode_response(kind: RequestKind, status: u16, body: &str) -> (r: Result<
    SpiderResult,
    FetchError,
>)
    ensures
        kind == RequestKind::ProfileLookup ==> match r {
            Ok(sr) => profile_outcome(status, body@) matches Ok(u) && sr@
                == SpiderResultV::UserInfo(u),
            Err(e) => profile_outcome(status, body@) == Err::<UserInfoV, FetchError>(e),
        },
        kind == RequestKind::PageLookup ==> match r {
            Ok(sr) => page_outcome(status, body@) matches Ok(p) && sr@ == SpiderResultV::BlogList(
                p.0,
                p.1,
            ),
            Err(e) => page_outcome(status, body@) == Err::<(Seq<BlogV>, Seq<char>), FetchError>(e),
        },
{
    if !(200 <= status && status < 300) {
        return Err(FetchError::Http(status));
    }
    let parsed = match crate::json::parse_json_text(body) {
        Some(j) => j,
        None => {
            return Err(FetchError::Decode(DecodeError::Syntax));
        },
    };
    match kind {
        RequestKind::ProfileLookup => match decode_profile(&parsed) {
            Ok(u) => Ok(SpiderResult::UserInfo(u)),
            Err(e) => Err(FetchError::Decode(e)),
        },
        RequestKind::PageLookup => match decode_page(&parsed) {
            Ok(p) => Ok(SpiderResult::BlogList(p.0, p.1)),
            Err(e) => Err(FetchError::Decode(e)),
        },
    }
}

/// Interprets a profile-lookup response.
pub fn crawl_info_await(status: u16, body: &str) -> (r: Result<SpiderResult, FetchError>)
    ensures
        match r {
            Ok(sr) => profile_outcome(status, body@) matches Ok(u) && sr@
                == SpiderResultV::UserInfo(u),
            Err(e) => profile_outcome(status, body@) == Err::<UserInfoV, FetchError>(e),
        },
{
    decode_response(RequestKind::ProfileLookup, status, body)
}

/// Interprets a page-lookup response.
pub fn crawl_block_blogs_await(status: u16, body: &str) -> (r: Result<SpiderResult, FetchError>)
    ensures
        match r {
            Ok(sr) => page_outcome(status, body@) matches Ok(p) && sr@ == SpiderResultV::BlogList(
                p.0,
                p.1,
            ),
            Err(e) => page_outcome(status, body@) == Err::<(Seq<BlogV>, Seq<char>), FetchError>(e),
        },
{
    decode_response(RequestKind::PageLookup, status, body)
}

/// The origin all feed requests are addressed to.
pub fn feed_origin() -> (s: String)
    ensures
        s@ == "https://m.weibo.cn"@,
{
    String::from_str("https://m.weibo.cn")
}

/// The profile-lookup request for one user.
pub fn build_crawl_info(uid: String) -> (m: Mapper)
    ensures
        m@.path == "/api/container/getIndex"@,
        m@.method == "GET"@,
        m@.handler == RequestKind::ProfileLookup,
        m@.params =~= seq![("jumpfrom"@, "weibocom"@), ("type"@, "uid"@), ("value"@, uid@)],
{
    let mut params: Vec<(String, String)> = Vec::new();
    params.push((String::from_str("jumpfrom"), String::from_str("weibocom")));
    params.push((String::from_str("type"), String::from_str("uid")));
    params.push((String::from_str("value"), uid));
    let m = Mapper::new(
        String::from_str("/api/container/getIndex"),
        String::from_str("GET"),
        params,
        RequestKind::ProfileLookup,
    );
    proof {
        assert(m@.params =~= seq![("jumpfrom"@, "weibocom"@), ("type"@, "uid"@), ("value"@, uid@)]);
    }
    m
}

/// The page-lookup request for one user, feed container, and cursor.
pub fn build_crawl_block_blogs(uid: String, cid: String, offset: String) -> (m: Mapper)
    ensures
        m@.path == "/api/container/getIndex"@,
        m@.method == "GET"@,
        m@.handler == RequestKind::PageLookup,
        m@.params =~= seq![
            ("jumpfrom"@, "weibocom"@),
            ("type"@, "uid"@),
            ("value"@, uid@),
            ("containerid"@, cid@),
            ("since_id"@, offset@),
        ],
{
    let mut params: Vec<(String, String)> = Vec::new();
    params.push((String::from_str("jumpfrom"), String::from_str("weibocom")));
    params.push((String::from_str("type"), String::from_str("uid")));
    params.push((String::from_str("value"), uid));
    params.push((String::from_str("containerid"), cid));
    params.push((String::from_str("since_id"), offset));
    let m = Mapper::new(
        String::from_str("/api/container/getIndex"),
        String::from_str("GET"),
        params,
        RequestKind::PageLookup,
    );
    proof {
        assert(m@.params =~= seq![
            ("jumpfrom"@, "weibocom"@),
            ("type"@, "uid"@),
            ("value"@, uid@),
            ("containerid"@, cid@),
            ("since_id"@, offset@),
        ]);
    }
    m
}

} // verus!
