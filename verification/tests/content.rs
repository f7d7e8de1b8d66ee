use rmf::content::Content;
use rmf::result::Error;
use rmf::size::Size;
use rmf::source::InputSource;
use rmf::timestamp::Timestamp;
use std::path::PathBuf;

#[test]
fn a_unit_hands_back_its_parts() {
    let unit = Content::new(
        vec![1u8, 2, 3],
        Timestamp::from_milliseconds(40),
        Timestamp::from_milliseconds(20),
    );
    assert_eq!(unit.item(), &vec![1u8, 2, 3]);
    assert_eq!(unit.offset(), Timestamp::from_microseconds(40_000));
    assert_eq!(unit.duration(), Timestamp::from_microseconds(20_000));
}

#[test]
fn item_mut_changes_the_item_only() {
    let mut unit =
        Content::new(7u32, Timestamp::from_milliseconds(1), Timestamp::from_milliseconds(2));
    *unit.item_mut() = 9;
    assert_eq!(*unit.item(), 9);
    assert_eq!(unit.offset(), Timestamp::from_milliseconds(1));
    assert_eq!(unit.duration(), Timestamp::from_milliseconds(2));
}

#[test]
fn with_offset_moves_the_unit_and_keeps_the_rest() {
    let unit = Content::new('a', Timestamp::from_seconds(1), Timestamp::from_seconds(2));
    let moved = unit.with_offset(Timestamp::from_seconds(11));
    assert_eq!(*moved.item(), 'a');
    assert_eq!(moved.offset(), Timestamp::from_seconds(11));
    assert_eq!(moved.duration(), Timestamp::from_seconds(2));
}

#[test]
fn size_keeps_width_and_height_apart() {
    let size = Size::new(640, 480);
    assert_eq!(size.width, 640);
    assert_eq!(size.height, 480);
    assert_eq!(Size::default(), Size::new(0, 0));
}

#[test]
fn errors_carry_their_subsystem_and_text() {
    assert_eq!(Error::new_image(String::from("a")), Error::Image(String::from("a")));
    assert_eq!(Error::new_audio(String::from("b")), Error::Audio(String::from("b")));
    assert_eq!(Error::new_input(String::from("c")), Error::Input(String::from("c")));
    assert_eq!(Error::new_eof(), Error::Eof);
    assert_ne!(Error::new_image(String::from("a")), Error::new_audio(String::from("a")));
}

#[test]
fn an_input_source_is_a_path_or_a_buffer() {
    match InputSource::new_path(PathBuf::from("/tmp/clip.mp4")) {
        InputSource::Path(path) => assert_eq!(path, PathBuf::from("/tmp/clip.mp4")),
        InputSource::Buffer(_) => panic!("a path became a buffer"),
    }
    match InputSource::new_buffer(vec![0, 1, 2]) {
        InputSource::Buffer(bytes) => assert_eq!(bytes, vec![0, 1, 2]),
        InputSource::Path(_) => panic!("a buffer became a path"),
    }
}

#[test]
fn a_cloned_input_source_names_the_same_origin() {
    let source = InputSource::new_path(PathBuf::from("a/b.mkv"));
    match source.clone() {
        InputSource::Path(path) => assert_eq!(path, PathBuf::from("a/b.mkv")),
        InputSource::Buffer(_) => panic!("a path became a buffer"),
    }
}
