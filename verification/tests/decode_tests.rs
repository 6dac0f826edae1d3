use feed_spider::json::Json;
use feed_spider::model::{Picture, SpiderResult, UserInfo};
use feed_spider::service::{
    build_crawl_block_blogs, build_crawl_info, crawl_block_blogs_await, crawl_info_await,
    decode_page, decode_profile, DecodeError, FetchError, Field,
};

fn obj(entries: Vec<(&str, Json)>) -> Json {
    Json::Obj(entries.into_iter().map(|(k, v)| (k.to_string(), v)).collect())
}

fn s(text: &str) -> Json {
    Json::Str(text.to_string())
}

fn num(n: u64) -> Json {
    Json::Num(Some(n))
}

fn profile_payload(tabs: Json) -> Json {
    obj(vec![(
        "data",
        obj(vec![
            (
                "userInfo",
                obj(vec![
                    ("id", num(42)),
                    ("screen_name", s("ann")),
                    ("gender", s("f")),
                    ("description", s("hello")),
                    ("follow_count", num(7)),
                    ("followers_count", num(1200)),
                    ("profile_url", s("purl")),
                    ("cover_image_phone", s("curl")),
                    ("avatar_hd", s("aurl")),
                ]),
            ),
            ("tabsInfo", obj(vec![("tabs", tabs)])),
        ]),
    )])
}

fn weibo_tabs() -> Json {
    Json::Arr(vec![
        obj(vec![("tab_type", s("home")), ("containerid", s("other"))]),
        obj(vec![("tab_type", s("Weibo")), ("containerid", s("107603"))]),
    ])
}

#[test]
fn decodes_profile_fields() {
    let payload = profile_payload(weibo_tabs());
    let decoded = decode_profile(&payload).unwrap();
    let expected = UserInfo::new(
        42,
        "ann".to_string(),
        'f',
        "hello".to_string(),
        7,
        "1200".to_string(),
        "purl".to_string(),
        "curl".to_string(),
        "aurl".to_string(),
        "107603".to_string(),
    );
    assert_eq!(decoded, expected);
}

#[test]
fn profile_without_feed_tab_has_empty_cid() {
    let tabs = Json::Arr(vec![obj(vec![
        ("tab_type", s("home")),
        ("containerid", s("other")),
    ])]);
    let decoded = decode_profile(&profile_payload(tabs)).unwrap();
    assert_eq!(decoded.cid, "");
}

#[test]
fn feed_tab_marker_is_case_insensitive() {
    let tabs = Json::Arr(vec![obj(vec![
        ("tab_type", s("WEIBO")),
        ("containerid", s("c9")),
    ])]);
    let decoded = decode_profile(&profile_payload(tabs)).unwrap();
    assert_eq!(decoded.cid, "c9");
}

#[test]
fn last_feed_tab_wins() {
    let tabs = Json::Arr(vec![
        obj(vec![("tab_type", s("weibo")), ("containerid", s("first"))]),
        obj(vec![("tab_type", s("weibo")), ("containerid", s("second"))]),
    ]);
    let decoded = decode_profile(&profile_payload(tabs)).unwrap();
    assert_eq!(decoded.cid, "second");
}

#[test]
fn missing_user_object_names_the_id_field() {
    let payload = obj(vec![("data", obj(vec![]))]);
    assert_eq!(
        decode_profile(&payload),
        Err(DecodeError::Field(Field::Id))
    );
}

#[test]
fn numeric_text_coerces_both_ways() {
    // follow_count arrives as text, followers_count as a number: both are
    // normalized to the declared types.
    let payload = obj(vec![(
        "data",
        obj(vec![(
            "userInfo",
            obj(vec![
                ("id", s("42")),
                ("gender", s("m")),
                ("follow_count", s("7")),
                ("followers_count", num(1200)),
            ]),
        )]),
    )]);
    let decoded = decode_profile(&payload).unwrap();
    assert_eq!(decoded.id, 42);
    assert_eq!(decoded.follow, 7);
    assert_eq!(decoded.follower, "1200");
    assert_eq!(decoded.name, "");
    assert_eq!(decoded.cid, "");
}

#[test]
fn uncoercible_count_names_its_field() {
    let payload = obj(vec![(
        "data",
        obj(vec![(
            "userInfo",
            obj(vec![
                ("id", num(1)),
                ("gender", s("m")),
                ("follow_count", s("12x")),
            ]),
        )]),
    )]);
    assert_eq!(
        decode_profile(&payload),
        Err(DecodeError::Field(Field::Follow))
    );
}

#[test]
fn empty_gender_cannot_be_coerced() {
    let payload = obj(vec![(
        "data",
        obj(vec![(
            "userInfo",
            obj(vec![("id", num(1)), ("gender", s(""))]),
        )]),
    )]);
    assert_eq!(
        decode_profile(&payload),
        Err(DecodeError::Field(Field::Gender))
    );
}

fn pic_list_card() -> Json {
    obj(vec![
        ("scheme", s("page1")),
        (
            "mblog",
            obj(vec![
                ("id", s("m1")),
                ("text", s("t1")),
                ("raw_text", s("r1")),
                ("source", s("client")),
                ("region", s("reg")),
                ("create_at", s("now")),
                (
                    "pics",
                    Json::Arr(vec![
                        obj(vec![
                            ("pid", s("p1")),
                            ("url", s("http://h/a.jpg")),
                            ("large", obj(vec![("url", s("http://h/a-big.jpg"))])),
                        ]),
                        obj(vec![("pid", s("p2")), ("videoSrc", s("http://h/v.mp4"))]),
                    ]),
                ),
            ]),
        ),
    ])
}

fn page_payload(cards: Vec<Json>, cursor: Json) -> Json {
    obj(vec![(
        "data",
        obj(vec![
            ("cards", Json::Arr(cards)),
            ("cardlistInfo", obj(vec![("since_id", cursor)])),
        ]),
    )])
}

#[test]
fn page_post_count_equals_cards_length() {
    let payload = page_payload(vec![pic_list_card(), pic_list_card(), pic_list_card()], num(88));
    let (blogs, cursor) = decode_page(&payload).unwrap();
    assert_eq!(blogs.len(), 3);
    assert_eq!(cursor, "88");
}

#[test]
fn decodes_card_fields_and_media_order() {
    let payload = page_payload(vec![pic_list_card()], num(5));
    let (blogs, _) = decode_page(&payload).unwrap();
    let b = &blogs[0];
    assert_eq!(b.id, "m1");
    assert_eq!(b.text, "t1");
    assert_eq!(b.raw, "r1");
    assert_eq!(b.source, "client");
    assert_eq!(b.region, "reg");
    assert_eq!(b.create, "now");
    assert_eq!(b.page, "page1");
    assert_eq!(b.pictures.len(), 2);
    assert_eq!(
        b.pictures[0],
        Picture::new(
            "p1".to_string(),
            "http://h/a.jpg".to_string(),
            "http://h/a-big.jpg".to_string(),
            "".to_string(),
        )
    );
    assert_eq!(
        b.pictures[1],
        Picture::new(
            "p2".to_string(),
            "".to_string(),
            "".to_string(),
            "http://h/v.mp4".to_string(),
        )
    );
}

#[test]
fn mapping_shaped_media_decodes_like_list_shaped() {
    let p1 = || obj(vec![("pid", s("q1")), ("url", s("u1.png"))]);
    let p2 = || obj(vec![("pid", s("q2")), ("url", s("u2.png"))]);
    let list_card = obj(vec![(
        "mblog",
        obj(vec![("pics", Json::Arr(vec![p1(), p2()]))]),
    )]);
    let map_card = obj(vec![(
        "mblog",
        obj(vec![(
            "pics",
            Json::Obj(vec![("k1".to_string(), p1()), ("k2".to_string(), p2())]),
        )]),
    )]);
    let (from_list, _) = decode_page(&page_payload(vec![list_card], Json::Null)).unwrap();
    let (from_map, _) = decode_page(&page_payload(vec![map_card], Json::Null)).unwrap();
    assert_eq!(from_list[0].pictures, from_map[0].pictures);
    assert_eq!(from_list[0].pictures[0].id, "q1");
    assert_eq!(from_list[0].pictures[1].id, "q2");
}

#[test]
fn absent_media_field_means_no_media() {
    let card = obj(vec![("mblog", obj(vec![("id", s("m"))]))]);
    let (blogs, cursor) = decode_page(&page_payload(vec![card], Json::Null)).unwrap();
    assert_eq!(blogs[0].pictures.len(), 0);
    assert_eq!(cursor, "");
}

#[test]
fn page_without_cards_is_an_error() {
    let payload = obj(vec![("data", obj(vec![]))]);
    assert_eq!(
        decode_page(&payload),
        Err(DecodeError::Field(Field::Cards))
    );
}

#[test]
fn textual_cursor_is_an_error() {
    let payload = page_payload(vec![], s("abc"));
    assert_eq!(
        decode_page(&payload),
        Err(DecodeError::Field(Field::Cursor))
    );
}

#[test]
fn uncoercible_media_url_names_its_field() {
    let card = obj(vec![(
        "mblog",
        obj(vec![(
            "pics",
            Json::Arr(vec![obj(vec![("pid", s("p")), ("url", Json::Bool(true))])]),
        )]),
    )]);
    let payload = page_payload(vec![card], Json::Null);
    assert_eq!(
        decode_page(&payload),
        Err(DecodeError::Field(Field::PicNormal))
    );
}

#[test]
fn uncoercible_container_id_names_its_field() {
    let tabs = Json::Arr(vec![obj(vec![
        ("tab_type", s("weibo")),
        ("containerid", Json::Bool(true)),
    ])]);
    assert_eq!(
        decode_profile(&profile_payload(tabs)),
        Err(DecodeError::Field(Field::Container))
    );
}

#[test]
fn non_integer_number_cannot_stand_for_text() {
    // A number the parser could not keep as an unsigned integer carries no
    // value; it cannot be coerced to text.
    let payload = obj(vec![(
        "data",
        obj(vec![(
            "userInfo",
            obj(vec![
                ("id", num(1)),
                ("gender", s("m")),
                ("description", Json::Num(None)),
            ]),
        )]),
    )]);
    assert_eq!(
        decode_profile(&payload),
        Err(DecodeError::Field(Field::Description))
    );
}

#[test]
fn uncoercible_card_text_names_its_field() {
    let card = obj(vec![("mblog", obj(vec![("text", Json::Bool(false))]))]);
    assert_eq!(
        decode_page(&page_payload(vec![card], Json::Null)),
        Err(DecodeError::Field(Field::Text))
    );
}

#[test]
fn uncoercible_video_url_names_its_field() {
    let card = obj(vec![(
        "mblog",
        obj(vec![(
            "pics",
            Json::Arr(vec![obj(vec![("videoSrc", Json::Arr(vec![]))])]),
        )]),
    )]);
    assert_eq!(
        decode_page(&page_payload(vec![card], Json::Null)),
        Err(DecodeError::Field(Field::PicVideo))
    );
}

#[test]
fn redecoding_yields_equal_results() {
    let payload = page_payload(vec![pic_list_card(), pic_list_card()], num(17));
    let first = decode_page(&payload).unwrap();
    let second = decode_page(&payload).unwrap();
    assert_eq!(first, second);

    let profile = profile_payload(weibo_tabs());
    assert_eq!(decode_profile(&profile).unwrap(), decode_profile(&profile).unwrap());
}

const PROFILE_TEXT: &str = "{\"data\":{\"userInfo\":{\"id\":42,\"screen_name\":\"ann\",\
\"gender\":\"f\",\"description\":\"hello\",\"follow_count\":7,\"followers_count\":\"1200\",\
\"profile_url\":\"purl\",\"cover_image_phone\":\"curl\",\"avatar_hd\":\"aurl\"},\
\"tabsInfo\":{\"tabs\":[{\"tab_type\":\"weibo\",\"containerid\":\"107603\"}]}}}";

const PAGE_TEXT: &str = "{\"data\":{\"cards\":[{\"scheme\":\"page1\",\"mblog\":{\"id\":\"m1\",\
\"text\":\"t1\",\"pics\":[{\"pid\":\"p1\",\"url\":\"http://h/a.jpg\"}]}}],\
\"cardlistInfo\":{\"since_id\":4567}}}";

#[test]
fn interprets_profile_response_text() {
    match crawl_info_await(200, PROFILE_TEXT) {
        Ok(SpiderResult::UserInfo(u)) => {
            assert_eq!(u.id, 42);
            assert_eq!(u.name, "ann");
            assert_eq!(u.follower, "1200");
            assert_eq!(u.cid, "107603");
        }
        other => panic!("unexpected result: {:?}", other),
    }
}

#[test]
fn interprets_page_response_text() {
    match crawl_block_blogs_await(200, PAGE_TEXT) {
        Ok(SpiderResult::BlogList(blogs, cursor)) => {
            assert_eq!(blogs.len(), 1);
            assert_eq!(blogs[0].id, "m1");
            assert_eq!(blogs[0].pictures[0].normal, "http://h/a.jpg");
            assert_eq!(cursor, "4567");
        }
        other => panic!("unexpected result: {:?}", other),
    }
}

#[test]
fn non_success_status_is_http_failure() {
    assert_eq!(
        crawl_info_await(404, PROFILE_TEXT),
        Err(FetchError::Http(404))
    );
    assert_eq!(
        crawl_block_blogs_await(500, PAGE_TEXT),
        Err(FetchError::Http(500))
    );
}

#[test]
fn unparseable_body_is_a_syntax_error() {
    assert_eq!(
        crawl_info_await(200, "not json at all"),
        Err(FetchError::Decode(DecodeError::Syntax))
    );
}

#[test]
fn builds_profile_request() {
    let m = build_crawl_info("2280813617".to_string());
    assert_eq!(
        m.sub_url(),
        "/api/container/getIndex?jumpfrom=weibocom&type=uid&value=2280813617"
    );
    assert_eq!(m.method, "GET");
}

#[test]
fn builds_page_request() {
    let m = build_crawl_block_blogs(
        "2280813617".to_string(),
        "107603".to_string(),
        "c2".to_string(),
    );
    assert_eq!(
        m.sub_url(),
        "/api/container/getIndex?jumpfrom=weibocom&type=uid&value=2280813617\
&containerid=107603&since_id=c2"
    );
}
