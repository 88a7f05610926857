use webui::marshal::from_boundary;
use webui::marshal::to_boundary;

#[test]
fn to_boundary_appends_terminator() {
    let data: Vec<u8> = vec![104, 101, 108, 108, 111];
    let buf = to_boundary(&data).unwrap();
    assert_eq!(buf, vec![104, 101, 108, 108, 111, 0]);
}

#[test]
fn to_boundary_of_empty_is_lone_terminator() {
    let data: Vec<u8> = Vec::new();
    let buf = to_boundary(&data).unwrap();
    assert_eq!(buf, vec![0]);
}

#[test]
fn to_boundary_rejects_embedded_terminator() {
    let data: Vec<u8> = vec![104, 0, 108];
    assert!(to_boundary(&data).is_none());
    let data: Vec<u8> = vec![0];
    assert!(to_boundary(&data).is_none());
}

#[test]
fn from_boundary_stops_at_first_terminator() {
    let buf: Vec<u8> = vec![104, 105, 0, 120, 0, 121];
    assert_eq!(from_boundary(&buf), vec![104, 105]);
}

#[test]
fn from_boundary_without_terminator_reads_all() {
    let buf: Vec<u8> = vec![1, 2, 3];
    assert_eq!(from_boundary(&buf), vec![1, 2, 3]);
    let buf: Vec<u8> = Vec::new();
    assert_eq!(from_boundary(&buf), Vec::<u8>::new());
}

#[test]
fn boundary_round_trip_preserves_content() {
    let cases: Vec<Vec<u8>> = vec![
        Vec::new(),
        vec![42],
        vec![104, 101, 108, 108, 111],
        vec![255, 1, 128, 7],
    ];
    for data in cases {
        let buf = to_boundary(&data).unwrap();
        assert_eq!(from_boundary(&buf), data);
    }
}
