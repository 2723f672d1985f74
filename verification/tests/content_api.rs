use tada_rust::domain::{LanguageTag, SearchLimit, SurahNumber};
use tada_rust::quran_api::{
    audio_map, find_ayah, map_ayah, search_hits, search_request, surah_ayahs, surah_detail_path,
    surah_list, Json,
};

fn s(v: &str) -> Json {
    Json::Str(v.to_string())
}

fn obj(entries: Vec<(&str, Json)>) -> Json {
    Json::Object(entries.into_iter().map(|(k, v)| (k.to_string(), v)).collect())
}

fn ayah_json(no: u64, arab: &str) -> Json {
    obj(vec![
        ("nomorAyat", Json::PosInt(no)),
        ("teksArab", s(arab)),
        ("teksLatin", s("latin")),
        ("teksIndonesia", s("terjemah")),
        ("audio", obj(vec![("01", s(" https://a/01.mp3 ")), ("05", s("https://a/05.mp3"))])),
    ])
}

fn lang() -> LanguageTag {
    LanguageTag::new("id").unwrap()
}

#[test]
fn audio_map_keeps_nonblank_urls_trimmed() {
    let raw = obj(vec![
        ("03", s("  https://x/03.mp3  ")),
        ("01", s("   ")),
        ("02", Json::PosInt(7)),
        ("05", s("https://x/05.mp3")),
    ]);
    let m = audio_map(Some(&raw));
    assert_eq!(m.len(), 2);
    assert_eq!(m.get("03").map(|u| u.as_str()), Some("https://x/03.mp3"));
    assert!(m.get("01").is_none());
    assert_eq!(audio_map(Some(&s("x"))).len(), 0);
    assert_eq!(audio_map(None).len(), 0);
}

#[test]
fn map_ayah_reads_fields_and_default_audio() {
    let surah = SurahNumber::new(2).unwrap();
    let a = map_ayah(&ayah_json(255, "arab"), surah, &lang()).unwrap();
    assert_eq!((a.surah_no, a.ayah_no), (2, 255));
    assert_eq!(a.arabic_text, "arab");
    assert_eq!(a.transliteration.as_deref(), Some("latin"));
    assert_eq!(a.translation.as_deref(), Some("terjemah"));
    assert_eq!(a.audio_url.as_deref(), Some("https://a/05.mp3"));
    assert_eq!(a.audio_urls.get("01").map(|u| u.as_str()), Some("https://a/01.mp3"));

    let no_default = obj(vec![
        ("nomorAyat", Json::PosInt(1)),
        ("teksArab", s("x")),
        ("audio", obj(vec![("02", s("u2")), ("01", s("u1"))])),
    ]);
    let a = map_ayah(&no_default, surah, &lang()).unwrap();
    assert_eq!(a.audio_url.as_deref(), Some("u1"));
    assert!(a.transliteration.is_none());

    assert!(map_ayah(&obj(vec![("nomorAyat", Json::PosInt(70000)), ("teksArab", s("x"))]), surah, &lang()).is_none());
    assert!(map_ayah(&obj(vec![("nomorAyat", Json::NegInt(-1)), ("teksArab", s("x"))]), surah, &lang()).is_none());
    assert!(map_ayah(&obj(vec![("nomorAyat", Json::PosInt(1))]), surah, &lang()).is_none());
}

#[test]
fn surah_detail_gives_readable_ayahs_in_order() {
    let payload = obj(vec![(
        "data",
        obj(vec![(
            "ayat",
            Json::Array(vec![ayah_json(1, "a"), obj(vec![("nomorAyat", s("2"))]), ayah_json(3, "c")]),
        )]),
    )]);
    let surah = SurahNumber::new(1).unwrap();
    let ayahs = surah_ayahs(&payload, surah, &lang()).unwrap();
    assert_eq!(ayahs.len(), 2);
    assert_eq!((ayahs[0].ayah_no, ayahs[1].ayah_no), (1, 3));

    let found = find_ayah(&payload, surah, 3, &lang()).unwrap().unwrap();
    assert_eq!(found.arabic_text, "c");
    assert!(find_ayah(&payload, surah, 9, &lang()).unwrap().is_none());

    let err = surah_ayahs(&obj(vec![]), surah, &lang()).unwrap_err();
    assert_eq!(err.message, "format response detail surah v2 tidak valid");
    let err = surah_ayahs(&obj(vec![("data", obj(vec![]))]), surah, &lang()).unwrap_err();
    assert_eq!(err.message, "format ayat v2 tidak valid");
}

#[test]
fn surah_list_reads_each_surah_or_the_first_error() {
    let item = |no: u64, count: u64| {
        obj(vec![
            ("nomor", Json::PosInt(no)),
            ("nama", s("arab")),
            ("namaLatin", s("latin")),
            ("jumlahAyat", Json::PosInt(count)),
            ("audioFull", obj(vec![("05", s("full-05"))])),
        ])
    };
    let payload = obj(vec![("data", Json::Array(vec![item(1, 7), item(2, 286)]))]);
    let list = surah_list(&payload).unwrap();
    assert_eq!(list.len(), 2);
    assert_eq!((list[1].surah_no, list[1].ayah_count), (2, 286));
    assert_eq!(list[0].audio_full.as_deref(), Some("full-05"));
    assert_eq!(list[0].name_id, "latin");

    let nameless = obj(vec![("data", Json::Array(vec![obj(vec![("nomor", Json::PosInt(1)), ("jumlahAyat", Json::PosInt(7))])]))]);
    assert_eq!(surah_list(&nameless).unwrap()[0].name_ar, "");

    let bad = obj(vec![("data", Json::Array(vec![item(1, 7), item(70000, 3), obj(vec![])]))]);
    assert_eq!(surah_list(&bad).unwrap_err().message, "nomor surah overflow: 70000");
    let bad = obj(vec![("data", Json::Array(vec![obj(vec![("nomor", Json::PosInt(1))])]))]);
    assert_eq!(surah_list(&bad).unwrap_err().message, "jumlahAyat tidak valid");
    assert_eq!(
        surah_list(&obj(vec![("data", s("x"))])).unwrap_err().message,
        "format response list surah v2 tidak valid"
    );
}

#[test]
fn search_hits_pick_the_snippet_and_respect_the_limit() {
    let hit = |surah: u64, ayah: u64, arab: &str, tr: &str| {
        obj(vec![(
            "data",
            obj(vec![
                ("id_surat", Json::PosInt(surah)),
                ("nomor_ayat", Json::PosInt(ayah)),
                ("teks_arab", s(arab)),
                ("terjemahan_id", s(tr)),
            ]),
        )])
    };
    let payload = obj(vec![(
        "hasil",
        Json::Array(vec![hit(1, 1, "ar1", "tr1"), hit(2, 2, "", "tr2"), obj(vec![]), hit(3, 3, "ar3", "")]),
    )]);
    let limit = SearchLimit::new(8).unwrap();
    let all = search_hits(&payload, true, true, limit).unwrap();
    assert_eq!(all.len(), 2);
    assert_eq!(all[1].snippet, "tr2");
    let quran = search_hits(&payload, true, false, limit).unwrap();
    assert_eq!(quran.iter().map(|h| h.surah_no).collect::<Vec<_>>(), vec![1, 3]);
    let one = search_hits(&payload, false, true, SearchLimit::new(1).unwrap()).unwrap();
    assert_eq!(one.len(), 1);
    assert_eq!(
        search_hits(&obj(vec![]), true, true, limit).unwrap_err().message,
        "format response vector search tidak valid"
    );
}

#[test]
fn request_pieces_are_built_exactly() {
    assert_eq!(surah_detail_path(SurahNumber::new(18).unwrap()), "/v2/surat/18");
    match search_request("sabar", SearchLimit::new(20).unwrap()) {
        Json::Object(entries) => {
            assert_eq!(entries.len(), 3);
            assert_eq!(entries[0].0, "cari");
            assert!(matches!(&entries[0].1, Json::Str(q) if q == "sabar"));
            assert!(matches!(entries[1].1, Json::PosInt(20)));
        }
        other => panic!("unexpected request {other:?}"),
    }
}
