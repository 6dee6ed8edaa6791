use opengraph::{
    assemble, extract_all, extract_opengraph, field_spec, field_specs, make_error_response,
    wire_field_names, AttrSelector, Document, FetchError,
};

fn selectors_for(key: &str) -> Vec<AttrSelector> {
    field_spec(key).selectors
}

fn content() -> String {
    "content".to_string()
}

#[test]
fn absent_field_is_empty_string() {
    let html = "<html><head><meta property=\"og:title\" content=\"A title\"></head></html>";
    let doc = Document::new(html);
    let value = doc.select_attr(&selectors_for("og:description"), &content());
    assert_eq!(value, "");
}

#[test]
fn name_only_variant_is_used() {
    let html = "<html><head><meta name=\"og:title\" content=\"From name\"></head></html>";
    let doc = Document::new(html);
    let value = doc.select_attr(&selectors_for("og:title"), &content());
    assert_eq!(value, "From name");
}

#[test]
fn property_wins_over_name() {
    let html = "<html><head>\
        <meta property=\"og:title\" content=\"From property\">\
        <meta name=\"og:title\" content=\"From name\">\
        </head></html>";
    let doc = Document::new(html);
    let value = doc.select_attr(&selectors_for("og:title"), &content());
    assert_eq!(value, "From property");
}

#[test]
fn property_wins_even_when_name_comes_first() {
    let html = "<html><head>\
        <meta name=\"og:title\" content=\"From name\">\
        <meta property=\"og:title\" content=\"From property\">\
        </head></html>";
    let doc = Document::new(html);
    let value = doc.select_attr(&selectors_for("og:title"), &content());
    assert_eq!(value, "From property");
}

#[test]
fn first_element_in_document_order_wins() {
    let html = "<html><head>\
        <meta property=\"og:title\" content=\"First\">\
        <meta property=\"og:title\" content=\"Second\">\
        <meta property=\"og:title\" content=\"Third\">\
        </head></html>";
    let doc = Document::new(html);
    let value = doc.select_attr(&selectors_for("og:title"), &content());
    assert_eq!(value, "First");
}

#[test]
fn matched_element_without_attribute_is_empty() {
    let html = "<html><head><meta property=\"og:title\"></head></html>";
    let doc = Document::new(html);
    let value = doc.select_attr(&selectors_for("og:title"), &content());
    assert_eq!(value, "");
}

#[test]
fn empty_selector_list_is_empty() {
    let html = "<html><head><meta property=\"og:title\" content=\"A title\"></head></html>";
    let doc = Document::new(html);
    let value = doc.select_attr(&Vec::new(), &content());
    assert_eq!(value, "");
}

#[test]
fn values_are_copied_verbatim() {
    let html = "<html><head><meta property=\"og:title\" content=\"  spaced &amp; raw  \"></head></html>";
    let doc = Document::new(html);
    let value = doc.select_attr(&selectors_for("og:title"), &content());
    assert_eq!(value, "  spaced & raw  ");
}

#[test]
fn non_html_content_yields_all_empty_fields() {
    let result = extract_all(&Document::new("just some plain text, no markup"));
    assert_eq!(result.entries.len(), 29);
    for entry in &result.entries {
        assert_eq!(entry.value, "");
    }
    let response = extract_opengraph("{\"this\": \"is json, not html\"}");
    assert_eq!(response.og_title, "");
    assert_eq!(response.og_description, "");
    assert_eq!(response.og_audio_type, "");
}

#[test]
fn malformed_html_still_extracts() {
    let html = "<html><head><meta property=\"og:title\" content=\"Still here\"><div><p></head>";
    let response = extract_opengraph(html);
    assert_eq!(response.og_title, "Still here");
    assert_eq!(response.og_type, "");
}

#[test]
fn round_trip_all_known_fields() {
    let names = wire_field_names();
    assert_eq!(names.len(), 29);
    let mut html = String::from("<html><head>");
    for (i, name) in names.iter().enumerate() {
        html.push_str(&format!("<meta property=\"{}\" content=\"VAL{}\">", name, i));
    }
    html.push_str("</head><body></body></html>");

    let result = extract_all(&Document::new(&html));
    assert_eq!(result.entries.len(), 29);
    for (i, entry) in result.entries.iter().enumerate() {
        assert_eq!(entry.wire_name, names[i]);
        assert_eq!(entry.value, format!("VAL{}", i));
    }

    let response = assemble(&result);
    assert_eq!(response.og_title, "VAL0");
    assert_eq!(response.og_type, "VAL1");
    assert_eq!(response.og_url, "VAL2");
    assert_eq!(response.og_image, "VAL3");
    assert_eq!(response.og_site_name, "VAL4");
    assert_eq!(response.og_description, "VAL5");
    assert_eq!(response.fb_page_id, "VAL6");
    assert_eq!(response.application_name, "VAL7");
    assert_eq!(response.og_email, "VAL8");
    assert_eq!(response.og_phone_number, "VAL9");
    assert_eq!(response.og_fax_number, "VAL10");
    assert_eq!(response.og_latitude, "VAL11");
    assert_eq!(response.og_longitude, "VAL12");
    assert_eq!(response.og_street_address, "VAL13");
    assert_eq!(response.og_locality, "VAL14");
    assert_eq!(response.og_region, "VAL15");
    assert_eq!(response.og_postal_code, "VAL16");
    assert_eq!(response.og_country_name, "VAL17");
    assert_eq!(response.fb_admins, "VAL18");
    assert_eq!(response.og_points, "VAL19");
    assert_eq!(response.og_video, "VAL20");
    assert_eq!(response.og_video_height, "VAL21");
    assert_eq!(response.og_video_width, "VAL22");
    assert_eq!(response.og_video_type, "VAL23");
    assert_eq!(response.og_audio, "VAL24");
    assert_eq!(response.og_audio_title, "VAL25");
    assert_eq!(response.og_audio_artist, "VAL26");
    assert_eq!(response.og_audio_album, "VAL27");
    assert_eq!(response.og_audio_type, "VAL28");
}

#[test]
fn wire_names_match_documented_schema() {
    let expected = vec![
        "og:title",
        "og:type",
        "og:url",
        "og:image",
        "og:site_name",
        "og:description",
        "fb:page_id",
        "application-name",
        "og:email",
        "og:phone_number",
        "og:fax_number",
        "og:latitude",
        "og:longitude",
        "og:street-address",
        "og:locality",
        "og:region",
        "og:postal-code",
        "og:country-name",
        "fb:admins",
        "og:points",
        "og:video",
        "og:video:height",
        "og:video:width",
        "og:video:type",
        "og:audio",
        "og:audio:title",
        "og:audio:artist",
        "og:audio:album",
        "og:audio:type",
    ];
    let names = wire_field_names();
    assert_eq!(names, expected);
}

#[test]
fn catalog_is_well_formed() {
    let specs = field_specs();
    assert_eq!(specs.len(), 29);
    for spec in &specs {
        assert_eq!(spec.selectors.len(), 2);
        assert_eq!(spec.selectors[0].attr, "property");
        assert_eq!(spec.selectors[1].attr, "name");
        assert_eq!(spec.selectors[0].value, spec.wire_name);
        assert_eq!(spec.selectors[1].value, spec.wire_name);
        assert_eq!(spec.attribute, "content");
    }
    for i in 0..specs.len() {
        for j in 0..specs.len() {
            if i != j {
                assert_ne!(specs[i].wire_name, specs[j].wire_name);
            }
        }
    }
}

#[test]
fn parsing_reads_the_real_document() {
    // A wrapper that ignored its input or handed it back unchanged could
    // not produce this attribute value.
    let html = "<html><head><meta property=\"og:site_name\" content=\"Example Site\"></head></html>";
    let doc = Document::new(html);
    assert!(!doc.metas.is_empty());
    let value = doc.select_attr(&selectors_for("og:site_name"), &content());
    assert_eq!(value, "Example Site");
}

#[test]
fn fetch_dispatch_failure_message() {
    let err = FetchError::Dispatch;
    assert_eq!(err.message(), "Invalid response");
    assert_eq!(err.status_code(), 500);
}

#[test]
fn body_decode_failure_message() {
    let err = FetchError::BodyDecode;
    assert_eq!(err.message(), "Unable to read body");
    assert_eq!(err.status_code(), 500);
}

#[test]
fn error_response_carries_message() {
    let body = make_error_response("Invalid response");
    assert_eq!(body.message, "Invalid response");
}

#[test]
fn empty_input_yields_all_empty_fields() {
    let result = extract_all(&Document::new(""));
    assert_eq!(result.entries.len(), 29);
    for entry in &result.entries {
        assert_eq!(entry.value, "");
    }
}
