use thumbnailer::naming::{get_filename, path_join};

#[test]
fn filename_with_round() {
    let name = get_filename("Spring Open", "Grand Final", "Alice", "Bob", "jpg");
    assert_eq!(name, "Spring Open - Grand Final - Alice vs Bob.jpg");
}

#[test]
fn filename_without_round() {
    let name = get_filename("Spring Open", "", "Alice", "Bob", "mp4");
    assert_eq!(name, "Spring Open - Alice vs Bob.mp4");
}

#[test]
fn path_join_inserts_separator() {
    let joined = path_join(&String::from("static"), &String::from("bg.png"));
    assert_eq!(joined, "static/bg.png");
}
