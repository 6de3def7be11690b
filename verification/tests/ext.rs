use voxel_mesh::ext::ResultExt;

#[test]
fn ignore_keeps_the_success() {
    let ok: Result<u32, String> = Ok(5);
    assert_eq!(ok.ignore(), Some(5));
}

#[test]
fn ignore_drops_the_error() {
    let err: Result<u32, String> = Err(String::from("lost"));
    assert_eq!(err.ignore(), None);
}
