use radiko_recorder::catalog::parse_station_list;
use radiko_recorder::errors::{ProtocolFault, RadikoError};

const SAMPLE: &str = "<?xml version=\"1.0\" encoding=\"UTF-8\" ?>\
<stations area_id=\"JP13\" area_name=\"TOKYO JAPAN\">\
<station>\
<id>TBS</id>\
<name>TBS\u{30e9}\u{30b8}\u{30aa}</name>\
<ascii_name>TBS RADIO</ascii_name>\
<ruby>\u{30c6}\u{30a3}\u{30fc}\u{30d3}\u{30fc}\u{30a8}\u{30b9}\u{30e9}\u{30b8}\u{30aa}</ruby>\
<href>https://www.tbsradio.jp/</href>\
</station>\
<station>\
<id>QRR</id>\
<name>\u{6587}\u{5316}\u{653e}\u{9001}</name>\
<ascii_name>JOQR BUNKA HOSO</ascii_name>\
<ruby>\u{3076}\u{3093}\u{304b}\u{307b}\u{3046}\u{305d}\u{3046}</ruby>\
</station>\
</stations>";

#[test]
fn sample_document_parses_in_order() {
    let stations = parse_station_list(SAMPLE).unwrap();
    assert_eq!(stations.len(), 2);
    assert_eq!(stations[0].id, "TBS");
    assert_eq!(stations[0].name, "TBS\u{30e9}\u{30b8}\u{30aa}");
    assert_eq!(stations[0].ascii_name, "TBS RADIO");
    assert_eq!(
        stations[0].ruby,
        "\u{30c6}\u{30a3}\u{30fc}\u{30d3}\u{30fc}\u{30a8}\u{30b9}\u{30e9}\u{30b8}\u{30aa}"
    );
    assert_eq!(stations[1].id, "QRR");
    assert_eq!(stations[1].ascii_name, "JOQR BUNKA HOSO");
}

#[test]
fn stations_without_extra_children_still_parse() {
    let doc = "<stations><station><id>A1</id><name>n</name><ascii_name>a</ascii_name><ruby>r</ruby></station></stations>";
    let stations = parse_station_list(doc).unwrap();
    assert_eq!(stations.len(), 1);
    assert_eq!(stations[0].id, "A1");
    assert_eq!(stations[0].name, "n");
}

#[test]
fn documents_without_stations_are_malformed() {
    for doc in ["", "<stations></stations>", "404 Not Found", "<html><body>error</body></html>"] {
        assert!(
            matches!(
                parse_station_list(doc),
                Err(RadikoError::Protocol(ProtocolFault::MalformedCatalog))
            ),
            "expected {:?} to be malformed",
            doc
        );
    }
}

#[test]
fn entity_references_are_decoded_in_fields() {
    let doc = "<stations><station>\
<id>A1</id>\
<name>Q &amp; A &lt;live&gt;</name>\
<ascii_name>&quot;Q&quot; &apos;A&apos;</ascii_name>\
<ruby>r&amp;&amp;r</ruby>\
</station></stations>";
    let stations = parse_station_list(doc).unwrap();
    assert_eq!(stations.len(), 1);
    assert_eq!(stations[0].name, "Q & A <live>");
    assert_eq!(stations[0].ascii_name, "\"Q\" 'A'");
    assert_eq!(stations[0].ruby, "r&&r");
}

#[test]
fn lone_ampersands_pass_through_unchanged() {
    let doc = "<stations><station>\
<id>A1</id><name>A &amp B</name><ascii_name>a&</ascii_name><ruby>&ampx</ruby>\
</station></stations>";
    let stations = parse_station_list(doc).unwrap();
    assert_eq!(stations[0].name, "A &amp B");
    assert_eq!(stations[0].ascii_name, "a&");
    assert_eq!(stations[0].ruby, "&ampx");
}

#[test]
fn unterminated_station_is_malformed() {
    let doc = "<stations><station><id>A</id>";
    assert!(matches!(
        parse_station_list(doc),
        Err(RadikoError::Protocol(ProtocolFault::MalformedCatalog))
    ));
}

#[test]
fn missing_field_is_malformed() {
    let doc = "<stations><station><id>A</id><name>n</name><ascii_name>a</ascii_name></station></stations>";
    assert!(matches!(
        parse_station_list(doc),
        Err(RadikoError::Protocol(ProtocolFault::MalformedCatalog))
    ));
}

#[test]
fn later_stations_are_still_checked() {
    let doc = "<stations>\
<station><id>A</id><name>n</name><ascii_name>a</ascii_name><ruby>r</ruby></station>\
<station><id>B</id><name>m</name></station>\
</stations>";
    assert!(matches!(
        parse_station_list(doc),
        Err(RadikoError::Protocol(ProtocolFault::MalformedCatalog))
    ));
}
