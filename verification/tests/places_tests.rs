use locations::places::{
    build_place, classify_place_status, extract_and_decode_url, Camera, CameraLocation,
    EntityDetails, GetPlaceError, PlaceResponse, PlusCode, RequestError,
};

fn sample_details() -> EntityDetails {
    EntityDetails {
        title: "A Cafe".to_string(),
        local_language_title: "Ein Cafe".to_string(),
        num_rating_stars: 4,
        phone_number: "+1 555".to_string(),
        authority_page_link: Some(
            "https://host/url?q=http%3A%2F%2Fexample.com%2Fmenu&sa=x".to_string(),
        ),
        menu_link: None,
        plus_code: Some(PlusCode {
            global_code: Some("8FWH4HQQ+48".to_string()),
            compound_code: None,
        }),
    }
}

fn sample_response() -> PlaceResponse {
    PlaceResponse {
        entity_details_result: Some(sample_details()),
        camera: Some(Camera {
            location: Some(CameraLocation {
                altitude: "12".to_string(),
                longitude: "-73992800".to_string(),
                latitude: "40750500".to_string(),
            }),
        }),
    }
}

#[test]
fn test_build_place_full_response() {
    let p = build_place("0x1:0x2".to_string(), sample_response()).unwrap();
    assert_eq!(p.location_id, "0x1:0x2");
    assert_eq!(p.title.as_deref(), Some("A Cafe"));
    assert_eq!(p.local_language_title.as_deref(), Some("Ein Cafe"));
    assert_eq!(p.rating, Some(4));
    assert_eq!(p.phone.as_deref(), Some("+1 555"));
    assert_eq!(p.url.as_deref(), Some("http://example.com/menu"));
    assert_eq!(p.menu_url, None);
    assert_eq!(p.global_code.as_deref(), Some("8FWH4HQQ+48"));
    assert_eq!(p.compound_code, None);
    assert_eq!(p.altitude, Some(12));
    assert_eq!(p.longitude, Some(-73992800));
    assert_eq!(p.latitude, Some(40750500));
}

#[test]
fn test_build_place_missing_parts() {
    let resp = PlaceResponse { entity_details_result: None, camera: None };
    let e = build_place("id".to_string(), resp).unwrap_err();
    let GetPlaceError::RequestError(re) = e;
    assert!(matches!(re, RequestError::Other(ref m) if m == "Missing entity details"));

    let resp = PlaceResponse {
        entity_details_result: Some(sample_details()),
        camera: None,
    };
    let GetPlaceError::RequestError(re) = build_place("id".to_string(), resp).unwrap_err();
    assert!(matches!(re, RequestError::Other(ref m) if m == "Missing camera information"));

    let resp = PlaceResponse {
        entity_details_result: Some(sample_details()),
        camera: Some(Camera { location: None }),
    };
    let GetPlaceError::RequestError(re) = build_place("id".to_string(), resp).unwrap_err();
    assert!(matches!(re, RequestError::Other(ref m) if m == "Missing location information"));
}

#[test]
fn test_build_place_unparseable_coordinates_dropped() {
    let mut resp = sample_response();
    if let Some(c) = resp.camera.as_mut() {
        c.location = Some(CameraLocation {
            altitude: "n/a".to_string(),
            longitude: "1e7".to_string(),
            latitude: "40750500".to_string(),
        });
    }
    let p = build_place("id".to_string(), resp).unwrap();
    assert_eq!(p.altitude, None);
    assert_eq!(p.longitude, None);
    assert_eq!(p.latitude, Some(40750500));
}

#[test]
fn test_extract_and_decode_url() {
    // Percent escapes are decoded: an unchanged hand-back would keep "%3A".
    let url = Some("https://h/url?q=http%3A%2F%2Fa.example%2Fx%20y&rest".to_string());
    assert_eq!(extract_and_decode_url(url).as_deref(), Some("http://a.example/x y"));

    // The query must be delimited by a following ampersand.
    let url = Some("https://h/url?q=http%3A%2F%2Fa.example".to_string());
    assert_eq!(extract_and_decode_url(url), None);

    // No marker, no capture.
    let url = Some("https://h/?q=zzz&".to_string());
    assert_eq!(extract_and_decode_url(url), None);

    assert_eq!(extract_and_decode_url(None), None);

    // An empty capture is allowed and decodes to the empty string.
    let url = Some("x/url?q=&tail".to_string());
    assert_eq!(extract_and_decode_url(url).as_deref(), Some(""));
}

#[test]
fn test_classify_place_status() {
    assert!(matches!(classify_place_status(8), RequestError::RateLimited));
    assert!(matches!(classify_place_status(5), RequestError::NotFound));
    assert!(matches!(classify_place_status(13), RequestError::TonicStatus(13)));
}
