use htpc_overlay::command::Event;
use htpc_overlay::dlna::description::{Device, Icon, IconList, Root, Service, ServiceList};
use htpc_overlay::dlna::search::Notify;
use htpc_overlay::dlna::{
    current_volume, set_volume_body, Dlna, DlnaDevice, CONTROL_PATH, GET_VOLUME,
};
use htpc_overlay::mpv::sponsorblock::{requested_categories, Category, SkipSegment};
use htpc_overlay::mpv::media::decode_list;
use htpc_overlay::mpv::time::Time;
use htpc_overlay::mpv::value::{Decode, Number, Value};
use htpc_overlay::ui::toast::Toast;

fn device() -> DlnaDevice {
    DlnaDevice::new(
        Root {
            device: Device {
                friendly_name: "Living room".to_string(),
                model_name: "Model".to_string(),
                serial_number: "1".to_string(),
                icon_list: IconList {
                    icon: vec![Icon {
                        mimetype: "image/png".to_string(),
                        width: 48,
                        height: 48,
                        depth: 24,
                        url: "/icon.png".to_string(),
                    }],
                },
                service_list: ServiceList {
                    service: vec![Service {
                        service_type: "urn:schemas-upnp-org:service:RenderingControl:1".to_string(),
                        service_id: "urn:upnp-org:serviceId:RenderingControl".to_string(),
                        control_url: "/upnp/control/RenderingControl1".to_string(),
                        event_sub_url: "/upnp/event/RenderingControl1".to_string(),
                    }],
                },
            },
        },
        "http://192.168.0.2:1400/desc.xml".to_string(),
    )
}

#[test]
fn a_device_knows_what_its_description_says() {
    let device = device();
    assert_eq!(device.friendly_name(), "Living room");
    assert_eq!(device.volume(), 0);
    assert_eq!(device.icons().len(), 1);
    assert_eq!(device.icons()[0].width, 48);
    assert_eq!(device.services().len(), 1);
    assert_eq!(device.services()[0].control_url, CONTROL_PATH);
}

#[test]
fn set_volume_stays_in_range_and_writes_the_message() {
    let mut device = device();
    let body = device.set_volume(37);
    assert_eq!(device.volume(), 37);
    assert_eq!(body, set_volume_body(37));
    assert!(body.contains("<DesiredVolume>37</DesiredVolume>"));
    assert!(body.starts_with("<?xml version=\"1.0\" encoding=\"utf-8\"?>\n<s:Envelope "));
    assert!(body.ends_with("</u:SetVolume>\n  </s:Body>\n</s:Envelope>"));
    let body = device.set_volume(101);
    assert_eq!(device.volume(), 100);
    assert!(body.contains("<DesiredVolume>100</DesiredVolume>"));
    device.set_volume(0);
    assert_eq!(device.volume(), 0);
}

#[test]
fn the_message_that_asks_for_the_volume() {
    let body = GET_VOLUME;
    assert!(body.contains("<u:GetVolume xmlns:u=\"urn:schemas-upnp-org:service:RenderingControl:1\">"));
    assert!(body.contains("<Channel>Master</Channel>"));
    assert!(body.ends_with("</s:Envelope>"));
}

#[test]
fn the_volume_is_read_from_the_answer() {
    let answer = "<s:Body><u:GetVolumeResponse><CurrentVolume>42</CurrentVolume></u:GetVolumeResponse></s:Body>";
    assert_eq!(current_volume(answer), Some(42));
    assert_eq!(current_volume("<CurrentVolume>0</CurrentVolume>"), Some(0));
    assert_eq!(current_volume("<CurrentVolume>255</CurrentVolume>"), Some(255));
    assert_eq!(current_volume("<CurrentVolume>+7</CurrentVolume>"), Some(7));
    assert_eq!(current_volume("<CurrentVolume>007</CurrentVolume>"), Some(7));
    assert_eq!(
        current_volume("<CurrentVolume>1</CurrentVolume><CurrentVolume>2</CurrentVolume>"),
        Some(1)
    );
}

#[test]
fn an_answer_without_a_volume_gives_none() {
    assert_eq!(current_volume(""), None);
    assert_eq!(current_volume("<CurrentVolume>42"), None);
    assert_eq!(current_volume("42</CurrentVolume>"), None);
    assert_eq!(current_volume("</CurrentVolume><CurrentVolume>42"), None);
    assert_eq!(current_volume("<CurrentVolume></CurrentVolume>"), None);
    assert_eq!(current_volume("<CurrentVolume>+</CurrentVolume>"), None);
    assert_eq!(current_volume("<CurrentVolume>256</CurrentVolume>"), None);
    assert_eq!(current_volume("<CurrentVolume>99999999999999999999</CurrentVolume>"), None);
    assert_eq!(current_volume("<CurrentVolume> 4</CurrentVolume>"), None);
    assert_eq!(current_volume("<CurrentVolume>-4</CurrentVolume>"), None);
    assert_eq!(current_volume("<CurrentVolume>4a</CurrentVolume>"), None);
    assert_eq!(current_volume("<currentvolume>4</currentvolume>"), None);
}

#[test]
fn get_volume_keeps_the_old_volume_on_failure() {
    let mut device = device();
    assert_eq!(device.get_volume("<CurrentVolume>30</CurrentVolume>"), Some(30));
    assert_eq!(device.volume(), 30);
    assert_eq!(device.get_volume("nothing"), None);
    assert_eq!(device.volume(), 30);
    // The device reports what it has, whatever the range.
    assert_eq!(device.get_volume("<CurrentVolume>200</CurrentVolume>"), Some(200));
    assert_eq!(device.volume(), 200);
}

#[test]
fn a_found_device_is_kept_and_announced() {
    let mut dlna = Dlna::new();
    let event = dlna.update(device());
    assert_eq!(
        event,
        Event::Toast(Toast::DlnaDeviceDiscovered { name: "Living room".to_string() })
    );
    assert_eq!(dlna.devices().len(), 1);
    dlna.devices()[0].set_volume(12);
    assert_eq!(dlna.devices[0].volume(), 12);
}

const ANSWER: &str = "HTTP/1.1 200 OK\r\nCACHE-CONTROL: max-age=1800\r\nLOCATION:  http://192.168.0.2:1400/xml/device_description.xml \r\nST: urn:schemas-upnp-org:device:MediaRenderer:1\r\n\r\n";

#[test]
fn the_location_of_an_answer_is_read() {
    let notify = Notify::from_response(ANSWER.as_bytes()).unwrap();
    assert_eq!(notify.location, "http://192.168.0.2:1400/xml/device_description.xml");
}

#[test]
fn the_header_name_is_read_in_either_case() {
    let answer = "HTTP/1.1 200 OK\nlocation:http://a/b\n";
    assert_eq!(
        Notify::from_response(answer.as_bytes()),
        Some(Notify { location: "http://a/b".to_string() })
    );
    let answer = "HTTP/1.1 200 OK\n  LoCaTiOn:/x  \n";
    assert_eq!(
        Notify::from_response(answer.as_bytes()),
        Some(Notify { location: "/x".to_string() })
    );
}

#[test]
fn the_first_location_counts() {
    let answer = "HTTP/1.1 200 OK\nLocation: http://first/\nLocation: http://second/\n";
    assert_eq!(Notify::from_response(answer.as_bytes()).unwrap().location, "http://first/");
    let broken_first = "HTTP/1.1 200 OK\nLocation: not a uri\nLocation: http://second/\n";
    assert_eq!(Notify::from_response(broken_first.as_bytes()), None);
}

#[test]
fn an_answer_needs_a_status_line() {
    assert_eq!(Notify::from_response(b""), None);
    assert_eq!(Notify::from_response(b"HTTP/1.1\nLocation: http://a/\n"), None);
    assert_eq!(Notify::from_response(b"Location: http://a/\n"), None);
    assert_eq!(Notify::from_response(b"HTTP/1.1 200"), None);
    assert!(Notify::from_response(b"HTTP/1.1 200\nLocation:http://a/").is_some());
}

#[test]
fn headers_end_at_the_first_line_without_a_colon() {
    let answer = "HTTP/1.1 200 OK\nHost: x\n\nLocation: http://a/\n";
    assert_eq!(Notify::from_response(answer.as_bytes()), None);
    let answer = "HTTP/1.1 200 OK\nHost: x\nServer: y\n";
    assert_eq!(Notify::from_response(answer.as_bytes()), None);
}

#[test]
fn a_location_has_to_be_an_address_in_valid_text() {
    assert_eq!(Notify::from_response(b"HTTP/1.1 200 OK\nLocation: \n"), None);
    assert_eq!(Notify::from_response(b"HTTP/1.1 200 OK\nLocation: http://a b/\n"), None);
    assert_eq!(Notify::from_response(b"HTTP/1.1 200 OK\nLocation: http://a/\xff\n"), None);
    // White space that only Unicode knows is taken off as well.
    let padded = "HTTP/1.1 200 OK\nLocation:\u{a0}http://a/\u{2003}\n";
    assert_eq!(Notify::from_response(padded.as_bytes()).unwrap().location, "http://a/");
    // A name that only looks like the header does not count.
    assert_eq!(Notify::from_response(b"HTTP/1.1 200 OK\nLocations: http://a/\n"), None);
    assert_eq!(Notify::from_response(b"HTTP/1.1 200 OK\nLocation : http://a/\n"), None);
}

fn segment(start: i64, end: i64, category: Category) -> SkipSegment {
    SkipSegment {
        segment: (Time::seconds(start as i32), Time::seconds(end as i32)),
        uuid: "abc".to_string(),
        category,
    }
}

#[test]
fn a_segment_contains_its_start_but_not_its_end() {
    let part = segment(10, 20, Category::Sponsor);
    assert_eq!(part.start(), Time::seconds(10));
    assert_eq!(part.end(), Time::seconds(20));
    assert!(!part.contains(Time::from_micros(9_999_999)));
    assert!(part.contains(Time::seconds(10)));
    assert!(part.contains(Time::from_micros(19_999_999)));
    assert!(!part.contains(Time::seconds(20)));
}

#[test]
fn categories_have_labels_and_colours() {
    assert_eq!(Category::Sponsor.label(), "Sponsor");
    assert_eq!(Category::Selfpromo.label(), "Self-Promo");
    assert_eq!(Category::Interaction.label(), "Interaction");
    assert_eq!(Category::Intro.label(), "Intro");
    assert_eq!(Category::Outro.label(), "Outro");
    assert_eq!(Category::Preview.label(), "Preview");
    assert_eq!(Category::Hook.label(), "Hook");
    assert_eq!(Category::Filler.label(), "Filler");
    assert_eq!(Category::Sponsor.color(), (255, 215, 0));
    assert_eq!(Category::Selfpromo.color(), (135, 206, 250));
    assert_eq!(Category::Interaction.color(), (144, 238, 144));
    assert_eq!(Category::Intro.color(), (255, 182, 193));
    assert_eq!(Category::Outro.color(), (255, 160, 122));
    assert_eq!(Category::Preview.color(), (221, 160, 221));
    assert_eq!(Category::Hook.color(), (255, 105, 180));
    assert_eq!(Category::Filler.color(), (211, 211, 211));
    assert_eq!(Category::from_name("selfpromo"), Some(Category::Selfpromo));
    assert_eq!(Category::from_name("Sponsor"), None);
    assert_eq!(requested_categories(), "[\"sponsor\",\"selfpromo\",\"intro\",\"outro\"]");
}

fn segment_value(segment: Value, category: &str) -> Value {
    Value::Object(vec![
        ("category".to_string(), Value::Text(category.to_string())),
        ("segment".to_string(), segment),
        ("UUID".to_string(), Value::Text("abc".to_string())),
        ("votes".to_string(), Value::Number(Number::Int(3))),
    ])
}

fn pair(start: Value, end: Value) -> Value {
    Value::Array(vec![start, end])
}

#[test]
fn segments_are_read_from_the_answer_of_the_service() {
    let list = Value::Array(vec![
        segment_value(
            pair(
                Value::Number(Number::Real { micros: 10_000_000 }),
                Value::Number(Number::Int(20)),
            ),
            "sponsor",
        ),
        segment_value(
            pair(Value::Number(Number::Int(30)), Value::Number(Number::Int(40))),
            "outro",
        ),
    ]);
    assert_eq!(
        decode_list::<SkipSegment>(&list),
        Some(vec![segment(10, 20, Category::Sponsor), segment(30, 40, Category::Outro)])
    );
}

#[test]
fn a_segment_that_does_not_parse_is_none() {
    let one = Value::Number(Number::Int(1));
    let two = Value::Number(Number::Int(2));
    let unknown = segment_value(pair(one, two), "advert");
    assert_eq!(SkipSegment::decode(&unknown), None);
    let three = Value::Array(vec![
        Value::Number(Number::Int(1)),
        Value::Number(Number::Int(2)),
        Value::Number(Number::Int(3)),
    ]);
    assert_eq!(SkipSegment::decode(&segment_value(three, "intro")), None);
    let text = pair(Value::Text("1".to_string()), Value::Number(Number::Int(2)));
    assert_eq!(SkipSegment::decode(&segment_value(text, "intro")), None);
    assert_eq!(SkipSegment::decode(&Value::Null), None);
}
