use rastro::element::{DecodeError, Element};
use rastro::indi::blob::SetBlobVector;
use rastro::indi::common::{IndiPermission, IndiState};
use rastro::indi::switch::{DefSwitchVector, IndiSwitch, IndiSwitchOptions};
use rastro::indi::{decode, IncomingMsg};

#[test]
fn it_parses() {
    let xml = r#"
            <defSwitchVector device="Telescope Simulator" name="CONNECTION" label="Connection" group="Main Control" state="Idle" perm="rw" rule="OneOfMany" timeout="60" timestamp="2023-01-12T20:51:39">
                <defSwitch name="CONNECT" label="Connect">Off</defSwitch>
                <defSwitch name="DISCONNECT" label="Disconnect">On</defSwitch>
            </defSwitchVector>
        "#;

    let element = Element::parse(xml.as_bytes()).unwrap();
    let el = DefSwitchVector::from_element(&element).unwrap();
    assert_eq!(el.switches.len(), 2);
}

#[test]
fn it_parses_blob() {
    let xml = r#"
        <setBLOBVector device="CCD Simulator" name="CCD1" state="Ok" timeout="60" timestamp="2023-02-11T07:16:57">
            <oneBLOB name="CCD1" size="8640" format=".fits" len="8640">
                U0lNUExFICA9ICAgICAgICAgICAgICAgICAgICBUIC8gZmlsZSBkb2VzIGNvbmZvcm0gdG8gRklUUyBzdGFuZGFyZCAgICAgICAgICAgICBCSVRQSVggID0gICAgICAgICAgICAgICAgICAgMTYgLyBudW1iZXIgb2YgYml0cyBwZXIgZGF0YSBwaXhlbCAgICAgICAgICAgICAgICAgIE5BWElTICAgPSAgICAgICAgICAgICAgICAgICAgMiAvIG51bWJlciBvZiBkYXRhIGF4ZXMgICAgICAgICAgICAgICAgICAgICAgICAgICAgTkFYSVMxICA9ICAgICAgICAgICAgICAgICAgICA0IC8gbGVuZ3RoIG9mIGRhdGEgYXhpcyAxICAgICAgICAgICAgICAgICAgICAgICAgICBOQVhJUzIgID0gICAgICAgICAgICAgICAgICAgIDQgLyBsZW5ndGggb2YgZGF0YSBheGlzIDIgICAgICAgICAgICAgICAgICAgICAgICAgIEVYVEVORCAgPSAgICAgICAgICAgICAgICAgICAgVCAvIEZJVFMgZGF0YXNldCBtYXkgY29udGFpbiBleHRlbnNpb25zICAgICAgICAgICAgQ09NTUVOVCAgIEZJVFMgKEZsZXhpYmxlIEltYWdlIFRyYW5zcG9ydCBTeXN0ZW0pIGZvcm1hdCBpcyBkZWZpbmVkIGluICdBc3Ryb25vbXlDT01NRU5UICAgYW5kIEFzdHJvcGh5c2ljcycsIHZvbHVtZSAzNzYsIHBhZ2UgMzU5OyBiaWJjb2RlOiAyMDAxQSZBLi4uMzc2Li4zNTlIIEJaRVJPICAgPSAgICAgICAgICAgICAgICAzMjc2OCAvIG9mZnNldCBkYXRhIHJhbmdlIHRvIHRoYXQgb2YgdW5zaWduZWQgc2hvcnQgICAgQlNDQUxFICA9ICAgICAgICAgICAgICAgICAgICAxIC8gZGVmYXVsdCBzY2FsaW5nIGZhY3RvciAgICAgICAgICAgICAgICAgICAgICAgICBST1dPUkRFUj0gJ1RPUC1ET1dOJyAgICAgICAgICAgLyBSb3cgT3JkZXIgICAgICAgICAgICAgICAgICAgICAgICAgICAgICAgICAgICAgIElOU1RSVU1FPSAnQ0NEIFNpbXVsYXRvcicgICAgICAvIENDRCBOYW1lICAgICAgICAgICAgICAgICAgICAgICAgICAgICAgICAgICAgICAgVEVMRVNDT1A9ICdUZWxlc2NvcGUgU2ltdWxhdG9yJyAvIFRlbGVzY29wZSBuYW1lICAgICAgICAgICAgICAgICAgICAgICAgICAgICAgICBPQlNFUlZFUj0gJ1Vua25vd24gJyAgICAgICAgICAgLyBPYnNlcnZlciBuYW1lICAgICAgICAgICAgICAgICAgICAgICAgICAgICAgICAgIE9CSkVDVCAgPSAnVW5rbm93biAnICAgICAgICAgICAvIE9iamVjdCBuYW1lICAgICAgICAgICAgICAgICAgICAgICAgICAgICAgICAgICAgRVhQVElNRSA9ICAgICAgICAgMS4wMDAwMDBFKzAwIC8gVG90YWwgRXhwb3N1cmUgVGltZSAocykgICAgICAgICAgICAgICAgICAgICAgICBDQ0QtVEVNUD0gICAgICAgICAgICAwLjAwMEUrMDAgLyBDQ0QgVGVtcGVyYXR1cmUgKENlbHNpdXMpICAgICAgICAgICAgICAgICAgICAgIFBJWFNJWkUxPSAgICAgICAgIDUuMjAwMDAwRSswMCAvIFBpeGVsIFNpemUgMSAobWljcm9ucykgICAgICAgICAgICAgICAgICAgICAgICAgUElYU0laRTI9ICAgICAgICAgNS4yMDAwMDBFKzAwIC8gUGl4ZWwgU2l6ZSAyIChtaWNyb25zKSAgICAgICAgICAgICAgICAgICAgICAgICBYQklOTklORz0gICAgICAgICAgICAgICAgICAgIDEgLyBCaW5uaW5nIGZhY3RvciBpbiB3aWR0aCAgICAgICAgICAgICAgICAgICAgICAgIFlCSU5OSU5HPSAgICAgICAgICAgICAgICAgICAgMSAvIEJpbm5pbmcgZmFjdG9yIGluIGhlaWdodCAgICAgICAgICAgICAgICAgICAgICAgWFBJWFNaICA9ICAgICAgICAgNS4yMDAwMDBFKzAwIC8gWCBiaW5uZWQgcGl4ZWwgc2l6ZSBpbiBtaWNyb25zICAgICAgICAgICAgICAgICBZUElYU1ogID0gICAgICAgICA1LjIwMDAwMEUrMDAgLyBZIGJpbm5lZCBwaXhlbCBzaXplIGluIG1pY3JvbnMgICAgICAgICAgICAgICAgIEZSQU1FICAgPSAnTGlnaHQgICAnICAgICAgICAgICAvIEZyYW1lIFR5cGUgICAgICAgICAgICAgICAgICAgICAgICAgICAgICAgICAgICAgSU1BR0VUWVA9ICdMaWdodCBGcmFtZScgICAgICAgIC8gRnJhbWUgVHlwZSAgICAgICAgICAgICAgICAgICAgICAgICAgICAgICAgICAgICBGSUxURVIgID0gJ1JlZCAgICAgJyAgICAgICAgICAgLyBGaWx0ZXIgICAgICAgICAgICAgICAgICAgICAgICAgICAgICAgICAgICAgICAgIEZPQ0FMTEVOPSAgICAgICAgICAgIDkuMDAwRSswMiAvIEZvY2FsIExlbmd0aCAobW0pICAgICAgICAgICAgICAgICAgICAgICAgICAgICAgQVBURElBICA9ICAgICAgICAgICAgMS4yMDBFKzAyIC8gVGVsZXNjb3BlIGRpYW1ldGVyIChtbSkgICAgICAgICAgICAgICAgICAgICAgICBST1RBVEFORz0gICAgICAgICAgICAwLjAwMEUrMDAgLyBSb3RhdG9yIGFuZ2xlIGluIGRlZ3JlZXMgICAgICAgICAgICAgICAgICAgICAgIFNDQUxFICAgPSAgICAgICAgIDEuMTkxOTU2RSswMCAvIGFyY3NlY3MgcGVyIHBpeGVsICAgICAgICAgICAgICAgICAgICAgICAgICAgICAgU0lURUxBVCA9ICAgICAgICAgMy43NTYzMDZFKzAxIC8gTGF0aXR1ZGUgb2YgdGhlIGltYWdpbmcgc2l0ZSBpbiBkZWdyZWVzICAgICAgICBTSVRFTE9ORz0gICAgICAgIC0xLjIyMzIyOEUrMDIgLyBMb25naXR1ZGUgb2YgdGhlIGltYWdpbmcgc2l0ZSBpbiBkZWdyZWVzICAgICAgIEFJUk1BU1MgPSAgICAgICAgIDEuNjM4NDczRSswMCAvIEFpcm1hc3MgICAgICAgICAgICAgICAgICAgICAgICAgICAgICAgICAgICAgICAgT0JKQ1RBWiA9ICAgICAgICAgNi40NjUwODZFLTAzIC8gQXppbXV0aCBvZiBjZW50ZXIgb2YgaW1hZ2UgaW4gRGVncmVlcyAgICAgICAgICBPQkpDVEFMVD0gICAgICAgICAzLjc1NjMzOUUrMDEgLyBBbHRpdHVkZSBvZiBjZW50ZXIgb2YgaW1hZ2UgaW4gRGVncmVlcyAgICAgICAgIE9CSkNUUkEgPSAnMjMgNTUgNTIuMjcnICAgICAgICAvIE9iamVjdCBKMjAwMCBSQSBpbiBIb3VycyAgICAgICAgICAgICAgICAgICAgICAgT0JKQ1RERUM9ICc4OSA1MiAwMC42NCcgICAgICAgIC8gT2JqZWN0IEoyMDAwIERFQyBpbiBEZWdyZWVzICAgICAgICAgICAgICAgICAgICBSQSAgICAgID0gICAgICAgICAzLjU4OTY3OEUrMDIgLyBPYmplY3QgSjIwMDAgUkEgaW4gRGVncmVlcyAgICAgICAgICAgICAgICAgICAgIERFQyAgICAgPSAgICAgICAgIDguOTg2Njg1RSswMSAvIE9iamVjdCBKMjAwMCBERUMgaW4gRGVncmVlcyAgICAgICAgICAgICAgICAgICAgUElFUlNJREU9ICdFQVNUICAgICcgICAgICAgICAgIC8gRWFzdCwgbG9va2luZyBXZXN0ICAgICAgICAgICAgICAgICAgICAgICAgICAgICBFUVVJTk9YID0gICAgICAgICAgICAgICAgIDIwMDAgLyBFcXVpbm94ICAgICAgICAgICAgICAgICAgICAgICAgICAgICAgICAgICAgICAgIERBVEUtT0JTPSAnMjAyMy0wMi0xMVQwNzoxNjo1Ni4xNzknIC8gVVRDIHN0YXJ0IGRhdGUgb2Ygb2JzZXJ2YXRpb24gICAgICAgICAgICAgQ09NTUVOVCBHZW5lcmF0ZWQgYnkgSU5ESSAgICAgICAgICAgICAgICAgICAgICAgICAgICAgICAgICAgICAgICAgICAgICAgICAgICAgICBHQUlOICAgID0gICAgICAgICAgICA5LjAwMEUrMDEgLyBHYWluICAgICAgICAgICAgICAgICAgICAgICAgICAgICAgICAgICAgICAgICAgIEVORCAgICAgICAgICAgICAgICAgICAgICAgICAgICAgICAgICAgICAgICAgICAgICAgICAgICAgICAgICAgICAgICAgICAgICAgICAgICAgICAgICAgICAgICAgICAgICAgICAgICAgICAgICAgICAgICAgICAgICAgICAgICAgICAgICAgICAgICAgICAgICAgICAgICAgICAgICAgICAgICAgICAgICAgICAgICAgICAgICAgICAgICAgICAgICAgICAgICAgICAgICAgICAgICAgICAgICAgICAgICAgICAgICAgICAgICAgICAgICAgICAgICAgICAgICAgICAgICAgICAgICAgICAgICAgICAgICAgICAgICAgICAgICAgICAgICAgICAgICAgICAgICAgICAgICAgICAgICAgICAgICAgICAgICAgICAgICAgICAgICAgICAgICAgICAgICAgICAgICAgICAgICAgICAgICAgICAgICAgICAgICAgICAgICAgICAgICAgICAgICAgICAgICAgICAgICAgICAgICAgICAgICAgICAgICAgICAgICAgICAgICAgICAgICAgICAgICAgICAgICAgICAgICAgICAgICAgICAgICAgICAgICAgICAgICAgICAgICAgICAgICAgICAgICAgICAgICAgICAgICAgICAgICAgICAgICAgICAgICAgICAgICAgICAgICAgICAgICAgICAgICAgICAgICAgICAgICAgICAgICAgICAgICAgICAgICAgICAgICAgICAgICAgICAgICAgICAgICAgICAgICAgICAgICAgICAgICAgICAgICAgICAgICAgICAgICAgICAgICAgICAgICAgICAgICAgICAgICAgICAgICAgICAgICAgICAgICAgICAgICAgICAgICAgICAgICAgICAgICAgICAgICAgICAgICAgICAgICAgICAgICAgICAgICAgICAgICAgICAgICAgICAgICAgICAgICAgICAgICAgICAgICAgICAgICAgICAgICAgICAgICAgICAgICAgICAgICAgICAgICAgICAgICAgICAgICAgICAgICAgICAgICAgICAgICAgICAgICAgICAgICAgICAgICAgICAgICAgICAgICAgICAgICAgICAgICAgICAgICAgICAgICAgICAgICAgICAgICAgICAgICAgICAgICAgICAgICAgICAgICAgICAgICAgICAgICAgICAgICAgICAgICAgICAgICAgICAgICAgICAgICAgICAgICAgICAgICAgICAgICAgICAgICAgICAgICAgICAgICAgICAgICAgICAgICAgICAgICAgICAgICAgICAgICAgICAgICAgICAgICAgICAgICAgICAgICAgICAgICAgICAgICAgICAgICAgICAgICAgICAgICAgICAgICAgICAgICAgICAgICAgICAgICAgICAgICAgICAgICAgICAgICAgICAgICAgICAgICAgICAgICAgICAgICAgICAgICAgICAgICAgICAgICAgICAgICAgICAgICAgICAgICAgICAgICAgICAgICAgICAgICAgICAgICAgICAgICAgICAgICAgICAgICAgICAgICAgICAgICAgICAgICAgICAgICAgICAgICAgICAgICAgICAgICAgICAgICAgICAgICAgICAgICAgICAgICAgICAgICAgICAgICAgICAgICAgICAgICAgICAgICAgICAgICAgICAgICAgICAgICAgICAgICAgICAgICAgICAgICAgICAgICAgICAgICAgICAgICAgICAgICAgICAgICAgICAgICAgICAgICAgICAgICAgICAgICAgICAgICAgICAgICAgICAgICAgICAgICAgICAgICAgICAgICAgICAgICAgICAgICAgICAgICAgICAgICAgICAgICAgICAgICAgICAgICAgICAgICAgICAgICAgICAgICAgICAgICAgICAgICAgICAgICAgICAgICAgICAgICAgICAgICAgICAgICAgICAgICAgICAgICAgICAgICAgICAgICAgICAgICAgICAgICAgICAgICAgICAgICAgICAgICAgICAgICAgICAgICAgICAgICAgICAgICAgICAgICAgICAgICAgICAgICAgICAgICAgICAgICAgICAgICAgICAgICAgICAgICAgICAgICAgICAgICAgICAgICAgICAgICAgICAgICAgICAgICAgICAgICAgICAgICAgICAgICAgICAgICAgICAgICAgICAgICAgICAgICAgICAgICAgICAgICAgICAgICAgICAgICAgICAgICAgICAgICAgICAgICAgICAgICAgICAgICAgICAgICAgICAgICAgICAgICAgICAgICAgICAgICAgICAgICAgICAgICAgICAgICAgICAgICAgICAgICAgICAgICAgICAgICAgICAgICAgICAgICAgICAgICAgICAgICAgICAgICAgICAgICAgICAgICAgICAgICAgICAgICAgICAgICAgICAgICAgICAgICAgICAgICAgICAgICAgICAgICAgICAgICAgICAgICAgICAgICAgICAgICAgICAgICAgICAgICAgICAgICAgICAgICAgICAgICAgICAgICAgICAgICAgICAgICAgICAgICAgICAgICAgICAgICAgICAgICAgICAgICAgICAgICAgICAgICAgICAgICAgICAgICAgICAgICAgICAgICAgICAgICAgICAgICAgICAgICAgICAgICAgICAgICAgICAgICAgICAgICAgICAgICAgICAgICAgICAgICAgICAgICAgICAgICAgICAgICAgICAgICAgICAgICAgICAgICAgICAgICAgICAgICAggAOACIAHgAaAAIAJgAaACIABgACACYADgACAAoAAgAgAAAAAAAAAAAAAAAAAAAAAAAAAAAAAAAAAAAAAAAAAAAAAAAAAAAAAAAAAAAAAAAAAAAAAAAAAAAAAAAAAAAAAAAAAAAAAAAAAAAAAAAAAAAAAAAAAAAAAAAAAAAAAAAAAAAAAAAAAAAAAAAAAAAAAAAAAAAAAAAAAAAAAAAAAAAAAAAAAAAAAAAAAAAAAAAAAAAAAAAAAAAAAAAAAAAAAAAAAAAAAAAAAAAAAAAAAAAAAAAAAAAAAAAAAAAAAAAAAAAAAAAAAAAAAAAAAAAAAAAAAAAAAAAAAAAAAAAAAAAAAAAAAAAAAAAAAAAAAAAAAAAAAAAAAAAAAAAAAAAAAAAAAAAAAAAAAAAAAAAAAAAAAAAAAAAAAAAAAAAAAAAAAAAAAAAAAAAAAAAAAAAAAAAAAAAAAAAAAAAAAAAAAAAAAAAAAAAAAAAAAAAAAAAAAAAAAAAAAAAAAAAAAAAAAAAAAAAAAAAAAAAAAAAAAAAAAAAAAAAAAAAAAAAAAAAAAAAAAAAAAAAAAAAAAAAAAAAAAAAAAAAAAAAAAAAAAAAAAAAAAAAAAAAAAAAAAAAAAAAAAAAAAAAAAAAAAAAAAAAAAAAAAAAAAAAAAAAAAAAAAAAAAAAAAAAAAAAAAAAAAAAAAAAAAAAAAAAAAAAAAAAAAAAAAAAAAAAAAAAAAAAAAAAAAAAAAAAAAAAAAAAAAAAAAAAAAAAAAAAAAAAAAAAAAAAAAAAAAAAAAAAAAAAAAAAAAAAAAAAAAAAAAAAAAAAAAAAAAAAAAAAAAAAAAAAAAAAAAAAAAAAAAAAAAAAAAAAAAAAAAAAAAAAAAAAAAAAAAAAAAAAAAAAAAAAAAAAAAAAAAAAAAAAAAAAAAAAAAAAAAAAAAAAAAAAAAAAAAAAAAAAAAAAAAAAAAAAAAAAAAAAAAAAAAAAAAAAAAAAAAAAAAAAAAAAAAAAAAAAAAAAAAAAAAAAAAAAAAAAAAAAAAAAAAAAAAAAAAAAAAAAAAAAAAAAAAAAAAAAAAAAAAAAAAAAAAAAAAAAAAAAAAAAAAAAAAAAAAAAAAAAAAAAAAAAAAAAAAAAAAAAAAAAAAAAAAAAAAAAAAAAAAAAAAAAAAAAAAAAAAAAAAAAAAAAAAAAAAAAAAAAAAAAAAAAAAAAAAAAAAAAAAAAAAAAAAAAAAAAAAAAAAAAAAAAAAAAAAAAAAAAAAAAAAAAAAAAAAAAAAAAAAAAAAAAAAAAAAAAAAAAAAAAAAAAAAAAAAAAAAAAAAAAAAAAAAAAAAAAAAAAAAAAAAAAAAAAAAAAAAAAAAAAAAAAAAAAAAAAAAAAAAAAAAAAAAAAAAAAAAAAAAAAAAAAAAAAAAAAAAAAAAAAAAAAAAAAAAAAAAAAAAAAAAAAAAAAAAAAAAAAAAAAAAAAAAAAAAAAAAAAAAAAAAAAAAAAAAAAAAAAAAAAAAAAAAAAAAAAAAAAAAAAAAAAAAAAAAAAAAAAAAAAAAAAAAAAAAAAAAAAAAAAAAAAAAAAAAAAAAAAAAAAAAAAAAAAAAAAAAAAAAAAAAAAAAAAAAAAAAAAAAAAAAAAAAAAAAAAAAAAAAAAAAAAAAAAAAAAAAAAAAAAAAAAAAAAAAAAAAAAAAAAAAAAAAAAAAAAAAAAAAAAAAAAAAAAAAAAAAAAAAAAAAAAAAAAAAAAAAAAAAAAAAAAAAAAAAAAAAAAAAAAAAAAAAAAAAAAAAAAAAAAAAAAAAAAAAAAAAAAAAAAAAAAAAAAAAAAAAAAAAAAAAAAAAAAAAAAAAAAAAAAAAAAAAAAAAAAAAAAAAAAAAAAAAAAAAAAAAAAAAAAAAAAAAAAAAAAAAAAAAAAAAAAAAAAAAAAAAAAAAAAAAAAAAAAAAAAAAAAAAAAAAAAAAAAAAAAAAAAAAAAAAAAAAAAAAAAAAAAAAAAAAAAAAAAAAAAAAAAAAAAAAAAAAAAAAAAAAAAAAAAAAAAAAAAAAAAAAAAAAAAAAAAAAAAAAAAAAAAAAAAAAAAAAAAAAAAAAAAAAAAAAAAAAAAAAAAAAAAAAAAAAAAAAAAAAAAAAAAAAAAAAAAAAAAAAAAAAAAAAAAAAAAAAAAAAAAAAAAAAAAAAAAAAAAAAAAAAAAAAAAAAAAAAAAAAAAAAAAAAAAAAAAAAAAAAAAAAAAAAAAAAAAAAAAAAAAAAAAAAAAAAAAAAAAAAAAAAAAAAAAAAAAAAAAAAAAAAAAAAAAAAAAAAAAAAAAAAAAAAAAAAAAAAAAAAAAAAAAAAAAAAAAAAAAAAAAAAAAAAAAAAAAAAAAAAAAAAAAAAAAAAAAAAAAAAAAAAAAAAAAAAAAAAAAAAAAAAAAAAAAAAAAAAAAAAAAAAAAAAAAAAAAAAAAAAAAAAAAAAAAAAAAAAAAAAAAAAAAAAAAAAAAAAAAAAAAAAAAAAAAAAAAAAAAAAAAAAAAAAAAAAAAAAAAAAAAAAAAAAAAAAAAAAAAAAAAAAAAAAAAAAAAAAAAAAAAAAAAAAAAAAAAAAAAAAAAAAAAAAAAAAAAAAAAAAAAAAAAAAAAAAAAAAAAAAAAAAAAAAAAAAAAAAAAAAAAAAAAAAAAAAAAAAAAAAAAAAAAAAAAAAAAAAAAAAAAAAAAAAAAAAAAAAAAAAAAAAAAAAAAAAAAAAAAAAAAAAAAAAAAAAAAAAAAAAAAAAAAAAAAAAAAAAAAAAAAAAAAAAAAAAAAAAAAAAAAAAAAAAAAAAAAAAAAAAAAAAAAAAAAAAAAAAAAAAAAAAAAAAAAAAAAAAAAAAAAAAAAAAAAAAAAAAAAAAAAAAAAAAAAAAAAAAAAAAAAAAAAAAAAAAAAAAAAAAAAAAAAAAAAAAAAAAAAAAAAAAAAAAAAAAAAAAAAAAAAAAAAAAAAAAAAAAAAAAAAAAAAAAAAAAAAAAAAAAAAAAAAAAAAAAAAAAAAAAAAAAAAAAAAAAAAAAAAAAAAAAAAAAAAAAAAAAAAAAAAAAAAAAAAAAAAAAAAAAAAAAAAAAAAAAAAAAAAAAAAAAAAAAAAAAAAAAAAAAAAAAAAAAAAAAAAAAAAAAAAAAAAAAAAAAAAAAAAAAAAAAAAAAAAAAAAAAAAAAAAAAAAAAAAAAAAAAAAAAAAAAAAAAAAAAAAAAAAAAAAAAAAAAAAAAAAAAAAAAAAAAAAAAAAAAAAAAAAAAAAAAAAAAAAAAAAAAAAAAAAAAAAAAAAAAAAAAAAAAAAAAAAAAAAAAAAAAAAAAAAAAAAAAAAAAAAAAAAAAAAAAAAAAAAAAAAAAAAAAAAAAAAAAAAAAAAAAAAAAAAAAAAAAAAAAAAAAAAAAAAAAAAAAAAAAAAAAAAAAAAAAAAAAAAAAAAAAAAAAAAAAAAAAAAAAAAAAAAAAAAAAAAAAAAAAAAAAAAAAAAAAAAAAAAAAAAAAAAAAAAAAAAAAAAAAAAAAAAAAAAAAAAAAAAAAAAAAAAAAAAAAAAAAAAAAAAAAAAAAAAAAAAAAAAAAAAAAAAAAAAAAAAAAAAAAAAAAAAAAAAAAAAAAAAAAAAAAAAAAAAAAAAAAAAAAAAAAAAAAAAAAAAAAAAAAAAAAAAAAAAAAAAAAAAAAAAAAAAAAAAAAAAAAAAAAAAAAAAAAAAAAAAAAAAAAAAAAAAAAAAAAAAAAAAAAAAAAAAAAAAAAAAAAAAAAAAAAAAAAAAAAAAAAAAAAAAAAAAAAAAAAAAAAAAAAAAAAAAAAAAAAAAAAAAAAAAAAAAAAAAAAAAAAAAAAAAAAAAAAAAAAAAAAAAAAAAAAAAAAAAAAAAAAAAAAAAAAAAAA
            </oneBLOB>
        </setBLOBVector>
        "#;

    let element = Element::parse(xml.as_bytes()).unwrap();
    let el = SetBlobVector::from_element(&element).unwrap();
    assert_eq!(el.blobs.len(), 1);
    assert_eq!(el.blobs[0].size, 8640);
    assert_eq!(el.blobs[0].len, 8640);
    assert_eq!(el.blobs[0].format, ".fits");
    assert!(el.blobs[0].value.starts_with("U0lNUExFICA9"));
}

const SWITCHES: &str = r#"<defSwitchVector device="Telescope Simulator" name="CONNECTION" label="Connection" group="Main Control" state="Idle" perm="rw" rule="OneOfMany" timeout="60" timestamp="2023-01-12T20:51:39"><defSwitch name="CONNECT" label="Connect">Off</defSwitch><defSwitch name="DISCONNECT" label="Disconnect">On</defSwitch></defSwitchVector>"#;

#[test]
fn switch_definition_has_every_field() {
    let msg = decode(SWITCHES.as_bytes()).unwrap();
    match msg {
        IncomingMsg::DefSwitchVector(v) => {
            assert_eq!(v.device, "Telescope Simulator");
            assert_eq!(v.name, "CONNECTION");
            assert_eq!(v.label, "Connection");
            assert_eq!(v.group, "Main Control");
            assert_eq!(v.state, IndiState::Idle);
            assert_eq!(v.perm, IndiPermission::RW);
            assert_eq!(v.rule, IndiSwitchOptions::OneOfMany);
            assert_eq!(v.timeout, "60");
            assert_eq!(v.timestamp, "2023-01-12T20:51:39");
            assert_eq!(v.switches.len(), 2);
            assert_eq!(v.switches[0].name, "CONNECT");
            assert_eq!(v.switches[0].label, "Connect");
            assert_eq!(v.switches[0].value, IndiSwitch::Off);
            assert_eq!(v.switches[1].name, "DISCONNECT");
            assert_eq!(v.switches[1].label, "Disconnect");
            assert_eq!(v.switches[1].value, IndiSwitch::On);
            assert!(v.extra.is_empty());
            assert!(v.switches[0].extra.is_empty());
        }
        other => panic!("not a switch definition: {:?}", other),
    }
}

#[test]
fn missing_attribute_is_reported() {
    let xml = r#"<defSwitchVector device="d" name="n" label="l" group="g" state="Idle" perm="rw" rule="OneOfMany" timeout="60"></defSwitchVector>"#;
    assert_eq!(decode(xml.as_bytes()).err(), Some(DecodeError::MissingAttribute));
}

#[test]
fn missing_attribute_comes_before_invalid_value() {
    let xml = r#"<defSwitchVector device="d" name="n" label="l" group="g" state="Sleepy" perm="rw" rule="OneOfMany" timeout="60"></defSwitchVector>"#;
    assert_eq!(decode(xml.as_bytes()).err(), Some(DecodeError::MissingAttribute));
}

#[test]
fn unknown_state_is_an_invalid_value() {
    let xml = r#"<defSwitchVector device="d" name="n" label="l" group="g" state="Sleepy" perm="rw" rule="OneOfMany" timeout="60" timestamp="t"></defSwitchVector>"#;
    assert_eq!(decode(xml.as_bytes()).err(), Some(DecodeError::InvalidValue));
}

#[test]
fn unknown_rule_and_permission_are_invalid_values() {
    let rule = r#"<defSwitchVector device="d" name="n" label="l" group="g" state="Ok" perm="rw" rule="Any" timeout="60" timestamp="t"></defSwitchVector>"#;
    assert_eq!(decode(rule.as_bytes()).err(), Some(DecodeError::InvalidValue));
    let perm = r#"<defSwitchVector device="d" name="n" label="l" group="g" state="Ok" perm="rx" rule="AnyOfMany" timeout="60" timestamp="t"></defSwitchVector>"#;
    assert_eq!(decode(perm.as_bytes()).err(), Some(DecodeError::InvalidValue));
}

#[test]
fn a_child_that_is_no_switch_fails_the_vector() {
    let bad_text = r#"<defSwitchVector device="d" name="n" label="l" group="g" state="Ok" perm="ro" rule="AtMostOne" timeout="60" timestamp="t"><defSwitch name="a" label="A">Maybe</defSwitch></defSwitchVector>"#;
    assert_eq!(decode(bad_text.as_bytes()).err(), Some(DecodeError::InvalidValue));
    let no_label = r#"<defSwitchVector device="d" name="n" label="l" group="g" state="Ok" perm="ro" rule="AtMostOne" timeout="60" timestamp="t"><defSwitch name="a" label="A">On</defSwitch><defSwitch name="b">On</defSwitch></defSwitchVector>"#;
    assert_eq!(decode(no_label.as_bytes()).err(), Some(DecodeError::MissingAttribute));
}

#[test]
fn the_first_failing_child_decides_the_error() {
    let xml = r#"<defSwitchVector device="d" name="n" label="l" group="g" state="Ok" perm="ro" rule="AtMostOne" timeout="60" timestamp="t"><defSwitch name="a" label="A">Maybe</defSwitch><defSwitch name="b">On</defSwitch></defSwitchVector>"#;
    assert_eq!(decode(xml.as_bytes()).err(), Some(DecodeError::InvalidValue));
}

#[test]
fn children_with_another_tag_are_passed_over() {
    let xml = r#"<defSwitchVector device="d" name="n" label="l" group="g" state="Busy" perm="wo" rule="AnyOfMany" timeout="60" timestamp="t"><note>hello</note><defSwitch name="a" label="A">On</defSwitch></defSwitchVector>"#;
    match decode(xml.as_bytes()).unwrap() {
        IncomingMsg::DefSwitchVector(v) => {
            assert_eq!(v.state, IndiState::Busy);
            assert_eq!(v.perm, IndiPermission::WO);
            assert_eq!(v.rule, IndiSwitchOptions::AnyOfMany);
            assert_eq!(v.switches.len(), 1);
        }
        other => panic!("{:?}", other),
    }
}

#[test]
fn unknown_attributes_are_kept_in_extra() {
    let xml = r#"<defSwitchVector device="d" name="n" label="l" group="g" state="Alert" perm="ro" rule="AtMostOne" timeout="60" timestamp="t" colour="red" size="3"><defSwitch name="a" label="A" hint="x">On</defSwitch></defSwitchVector>"#;
    match decode(xml.as_bytes()).unwrap() {
        IncomingMsg::DefSwitchVector(v) => {
            assert_eq!(v.state, IndiState::Alert);
            assert_eq!(v.extra.get("colour").map(|s| s.as_str()), Some("red"));
            assert_eq!(v.extra.get("size").map(|s| s.as_str()), Some("3"));
            assert!(!v.extra.contains_key("name"));
            assert!(!v.extra.is_empty());
            assert_eq!(v.switches[0].extra.get("hint").map(|s| s.as_str()), Some("x"));
            assert!(!v.switches[0].extra.contains_key("label"));
        }
        other => panic!("{:?}", other),
    }
}

#[test]
fn unknown_root_becomes_a_map_of_every_attribute() {
    let xml = r#"<newNumberVector device="Telescope" name="EQUATORIAL" timestamp="2023" odd="a &amp; b"><oneNumber name="RA">1.5</oneNumber></newNumberVector>"#;
    match decode(xml.as_bytes()).unwrap() {
        IncomingMsg::Unparsed(map) => {
            assert_eq!(map.get("device").map(|s| s.as_str()), Some("Telescope"));
            assert_eq!(map.get("name").map(|s| s.as_str()), Some("EQUATORIAL"));
            assert_eq!(map.get("timestamp").map(|s| s.as_str()), Some("2023"));
            assert_eq!(map.get("odd").map(|s| s.as_str()), Some("a & b"));
            assert_eq!(map.get("oneNumber").map(|s| s.as_str()), Some("1.5"));
            assert_eq!(map.get("missing"), None);
        }
        other => panic!("{:?}", other),
    }
}

#[test]
fn unknown_root_with_nothing_in_it_is_an_empty_map() {
    match decode(b"<ping/>").unwrap() {
        IncomingMsg::Unparsed(map) => assert!(map.is_empty()),
        other => panic!("{:?}", other),
    }
    match decode(b"<ping>now</ping>").unwrap() {
        IncomingMsg::Unparsed(map) => {
            assert_eq!(map.get("$text").map(|s| s.as_str()), Some("now"));
        }
        other => panic!("{:?}", other),
    }
}

#[test]
fn an_attribute_of_an_unknown_root_wins_over_a_child_of_the_same_name() {
    match decode(br#"<thing name="outer"><name>inner</name></thing>"#).unwrap() {
        IncomingMsg::Unparsed(map) => {
            assert_eq!(map.get("name").map(|s| s.as_str()), Some("outer"));
        }
        other => panic!("{:?}", other),
    }
}

fn blob_update(size: &str, text: &str) -> String {
    format!(
        r#"<setBLOBVector device="CCD Simulator" name="CCD1" state="Ok" timeout="60" timestamp="2023-02-11T07:16:57"><oneBLOB name="CCD1" size="{}" format=".fits" len="8">{}</oneBLOB></setBLOBVector>"#,
        size, text
    )
}

#[test]
fn blob_size_is_not_held_against_the_payload() {
    for size in ["6", "8640", "0"] {
        match decode(blob_update(size, "QUJDREVG").as_bytes()).unwrap() {
            IncomingMsg::SetBlobVector(v) => {
                assert_eq!(v.state, IndiState::Okay);
                assert_eq!(v.blobs.len(), 1);
                assert_eq!(v.blobs[0].size.to_string(), size);
                assert_eq!(v.blobs[0].len, 8);
                assert_eq!(v.blobs[0].value, "QUJDREVG");
                assert_eq!(v.blobs[0].format, ".fits");
            }
            other => panic!("{:?}", other),
        }
    }
}

#[test]
fn blob_size_must_be_a_number() {
    for size in ["", "12a", "-1", "1.5", "99999999999999999999999999"] {
        assert_eq!(
            decode(blob_update(size, "QUJD").as_bytes()).err(),
            Some(DecodeError::InvalidValue),
            "size {:?}",
            size
        );
    }
}

#[test]
fn number_vectors_keep_numbers_as_written() {
    let def = r#"<defNumberVector device="T" name="EQ" label="Eq" group="Main" state="Idle" perm="rw" timeout="60" timestamp="t"><defNumber name="RA" label="RA (hh:mm:ss)" format="%10.6m" min="0" max="24" step="0">
12.5
    </defNumber><defNumber name="DEC" label="DEC" format="%10.6m" min="-90" max="90" step="0.5">-3e1</defNumber></defNumberVector>"#;
    match decode(def.as_bytes()).unwrap() {
        IncomingMsg::DefNumberVector(v) => {
            assert_eq!(v.numbers.len(), 2);
            assert_eq!(v.numbers[0].name, "RA");
            assert_eq!(v.numbers[0].label, "RA (hh:mm:ss)");
            assert_eq!(v.numbers[0].value, "12.5");
            assert_eq!(v.numbers[0].format, "%10.6m");
            assert_eq!(v.numbers[0].min, "0");
            assert_eq!(v.numbers[0].max, "24");
            assert_eq!(v.numbers[0].step, "0");
            assert_eq!(v.numbers[1].value, "-3e1");
            assert_eq!(v.numbers[1].step, "0.5");
            assert_eq!(v.timeout, "60");
        }
        other => panic!("{:?}", other),
    }
    let set = r#"<setNumberVector device="T" name="EQ" state="Busy" timeout="60" timestamp="t"><oneNumber name="RA">13</oneNumber></setNumberVector>"#;
    match decode(set.as_bytes()).unwrap() {
        IncomingMsg::SetNumberVector(v) => {
            assert_eq!(v.state, IndiState::Busy);
            assert_eq!(v.numbers.len(), 1);
            assert_eq!(v.numbers[0].name, "RA");
            assert_eq!(v.numbers[0].value, "13");
        }
        other => panic!("{:?}", other),
    }
}

#[test]
fn text_vectors_decode() {
    let def = r#"<defTextVector device="T" name="PORT" label="Port" group="Main" state="Idle" perm="rw" timeout="0" timestamp="t"><defText name="P" label="Port">/dev/ttyUSB0</defText><defText name="Q" label="Empty"></defText></defTextVector>"#;
    match decode(def.as_bytes()).unwrap() {
        IncomingMsg::DefTextVector(v) => {
            assert_eq!(v.texts.len(), 2);
            assert_eq!(v.texts[0].value, "/dev/ttyUSB0");
            assert_eq!(v.texts[1].value, "");
        }
        other => panic!("{:?}", other),
    }
    let set = r#"<setTextVector device="T" name="PORT" state="Ok" timeout="0" timestamp="t"><oneText name="P">a &lt;b&gt; &#65;</oneText></setTextVector>"#;
    match decode(set.as_bytes()).unwrap() {
        IncomingMsg::SetTextVector(v) => {
            assert_eq!(v.texts.len(), 1);
            assert_eq!(v.texts[0].value, "a <b> A");
        }
        other => panic!("{:?}", other),
    }
    let empty = r#"<setTextVector device="T" name="PORT" state="Ok" timeout="0" timestamp="t"></setTextVector>"#;
    match decode(empty.as_bytes()).unwrap() {
        IncomingMsg::SetTextVector(v) => assert_eq!(v.texts.len(), 0),
        other => panic!("{:?}", other),
    }
}

#[test]
fn light_vectors_decode() {
    let def = r#"<defLightVector device="T" name="L" label="Lights" group="Main" state="Ok" timestamp="t"><defLight name="a" label="A">Alert</defLight><defLight name="b" label="B">Idle</defLight></defLightVector>"#;
    match decode(def.as_bytes()).unwrap() {
        IncomingMsg::DefLightVector(v) => {
            assert_eq!(v.lights.len(), 2);
            assert_eq!(v.lights[0].value, IndiState::Alert);
            assert_eq!(v.lights[1].value, IndiState::Idle);
        }
        other => panic!("{:?}", other),
    }
    let bad = r#"<defLightVector device="T" name="L" label="Lights" group="Main" state="Ok" timestamp="t"><defLight name="a" label="A">Dim</defLight></defLightVector>"#;
    assert_eq!(decode(bad.as_bytes()).err(), Some(DecodeError::InvalidValue));
}

#[test]
fn blob_definition_and_switch_update_decode() {
    let def = r#"<defBLOBVector device="C" name="CCD1" label="Image" group="Data" state="Idle" perm="ro" timeout="60" timestamp="t"><defBLOB name="CCD1" label="Image"></defBLOB></defBLOBVector>"#;
    match decode(def.as_bytes()).unwrap() {
        IncomingMsg::DefBlobVector(v) => {
            assert_eq!(v.blobs.len(), 1);
            assert_eq!(v.blobs[0].name, "CCD1");
            assert_eq!(v.perm, IndiPermission::RO);
        }
        other => panic!("{:?}", other),
    }
    let set = r#"<setSwitchVector device="T" name="CONNECTION" state="Ok" timeout="60" timestamp="t"><oneSwitch name="CONNECT">On</oneSwitch><oneSwitch name="DISCONNECT">Off</oneSwitch></setSwitchVector>"#;
    match decode(set.as_bytes()).unwrap() {
        IncomingMsg::SetSwitchVector(v) => {
            assert_eq!(v.switches.len(), 2);
            assert_eq!(v.switches[0].value, "On");
            assert_eq!(v.switches[1].name, "DISCONNECT");
        }
        other => panic!("{:?}", other),
    }
}

#[test]
fn messages_and_removals_decode() {
    let line = r#"<message device="Telescope" timestamp="2023-01-12T20:51:39" message="Telescope is &quot;parked&quot;."/>"#;
    match decode(line.as_bytes()).unwrap() {
        IncomingMsg::Message(m) => {
            assert_eq!(m.device, "Telescope");
            assert_eq!(m.message, "Telescope is \"parked\".");
            assert_eq!(m.timestamp, "2023-01-12T20:51:39");
        }
        other => panic!("{:?}", other),
    }
    assert_eq!(
        decode(br#"<message device="Telescope"/>"#).err(),
        Some(DecodeError::MissingAttribute)
    );
    match decode(br#"<delProperty device="T" name="PORT" timestamp="t"/>"#).unwrap() {
        IncomingMsg::DelProperty(d) => {
            assert_eq!(d.device, "T");
            assert_eq!(d.name.as_deref(), Some("PORT"));
            assert_eq!(d.timestamp.as_deref(), Some("t"));
        }
        other => panic!("{:?}", other),
    }
    match decode(br#"<delProperty device="T"></delProperty>"#).unwrap() {
        IncomingMsg::DelProperty(d) => {
            assert_eq!(d.device, "T");
            assert_eq!(d.name, None);
            assert_eq!(d.timestamp, None);
        }
        other => panic!("{:?}", other),
    }
    assert_eq!(decode(b"<delProperty/>").err(), Some(DecodeError::MissingAttribute));
}

#[test]
fn what_is_no_document_is_refused() {
    assert_eq!(decode(b"").err(), Some(DecodeError::NoElement));
    assert_eq!(decode(b"   \n ").err(), Some(DecodeError::NoElement));
    assert_eq!(decode(b"<a><b></b>").err(), Some(DecodeError::NoElement));
    assert_eq!(decode(b"</a>").err(), Some(DecodeError::Malformed));
    assert_eq!(decode(b"<a").err(), Some(DecodeError::Malformed));
    assert_eq!(decode(b"<a>text").err(), Some(DecodeError::Malformed));
    assert_eq!(decode(b"<!x>").err(), Some(DecodeError::Malformed));
    assert_eq!(decode(b"<a>\xff\xfe</a>").err(), Some(DecodeError::NotText));
    assert_eq!(decode(b"<\xff\xfe>t</a>").err(), Some(DecodeError::NotText));
}

#[test]
fn comments_and_declarations_are_passed_over_in_a_document() {
    let xml = r#"<?xml version="1.0"?><!-- hello --><delProperty device="T"/>"#;
    match decode(xml.as_bytes()).unwrap() {
        IncomingMsg::DelProperty(d) => assert_eq!(d.device, "T"),
        other => panic!("{:?}", other),
    }
}

#[test]
fn an_entity_that_cannot_be_resolved_is_kept_as_written() {
    match decode(br#"<delProperty device="a &unknown; b"/>"#).unwrap() {
        IncomingMsg::DelProperty(d) => assert_eq!(d.device, "a &unknown; b"),
        other => panic!("{:?}", other),
    }
}
