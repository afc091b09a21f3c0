use collection_cursor::CollectionCursor;
use collection_cursor::SeekFrom;

fn test_vec() -> Vec<i32> {
    let res = Vec::from([0, 1, 2, 3, 4, 5, 9, 8, 7, 6]);

    // Ensure that the length is a known value.
    // IF YOU CHANGE THIS, ENSURE TESTS ARE CHANGED TO MATCH.
    assert_eq!(res.len(), 10);

    res
}

fn test_collection() -> CollectionCursor<Vec<i32>> {
    let res = CollectionCursor::new(test_vec());

    // Ensure that the cursor position is a known value.
    // IF YOU CHANGE THIS, ENSURE TESTS ARE CHANGED TO MATCH.
    assert_eq!(res.position(), 0);

    res
}

#[test]
fn new() {
    let new_collection = CollectionCursor::new(test_vec());
    let test_collection = test_collection();

    assert_eq!(new_collection, test_collection);
}

#[test]
fn position() {
    let mut collection = test_collection();
    assert_eq!(collection.position(), 0);

    collection.seek(SeekFrom::Start(5));
    assert_eq!(collection.position(), 5);

    // Drift the position past the length through the escape hatch: the
    // cursor keeps reporting the raw position.
    collection.seek(SeekFrom::End(0));
    collection.get_mut().clear();
    assert_eq!(collection.position(), 10);
}

#[test]
fn get_ref() {
    let collection = test_collection();
    assert_eq!(collection.get_ref(), &test_vec());
}

#[test]
fn get_mut() {
    let mut collection = test_collection();
    assert_eq!(collection.get_mut(), &mut test_vec());
}

#[test]
fn into_inner() {
    let collection = test_collection();
    assert_eq!(collection.into_inner(), test_vec());
}

fn seek_and_check(
    collection: &mut CollectionCursor<Vec<i32>>,
    seek_from: SeekFrom,
    expected_result: Option<usize>,
    expected_pos: usize,
) {
    let new_pos = collection.seek(seek_from);
    assert_eq!(
        new_pos, expected_result,
        "the seek did not return the expected value"
    );
    assert_eq!(
        collection.position(),
        expected_pos,
        "the seek did not place the cursor at the expected position"
    );
}

#[test]
fn seek() {
    let mut collection = test_collection();

    let past_end_usize: usize = test_collection().get_ref().len() * 2;
    let past_end_isize: isize = past_end_usize as isize;
    let before_beginning: isize = -past_end_isize;

    // Seeking to within valid bounds should return the `Some(the new position)` and move the
    // cursor
    seek_and_check(&mut collection, SeekFrom::Start(3), Some(3), 3);
    seek_and_check(&mut collection, SeekFrom::Start(0), Some(0), 0);

    seek_and_check(&mut collection, SeekFrom::Current(0), Some(0), 0);
    seek_and_check(&mut collection, SeekFrom::Current(7), Some(7), 7);
    seek_and_check(&mut collection, SeekFrom::Current(-2), Some(5), 5);
    seek_and_check(&mut collection, SeekFrom::Current(-5), Some(0), 0);

    seek_and_check(&mut collection, SeekFrom::End(0), Some(10), 10);
    seek_and_check(&mut collection, SeekFrom::End(-1), Some(9), 9);
    seek_and_check(&mut collection, SeekFrom::End(-5), Some(5), 5);
    seek_and_check(&mut collection, SeekFrom::End(-10), Some(0), 0);

    // Seek to a known position. We reuse the testing function to ensure we're actually there,
    // just in case the test data has been messed with improperly.
    seek_and_check(&mut collection, SeekFrom::Start(7), Some(7), 7);

    // Seeking outside valid bounds should return `None` and *not* move the cursor
    seek_and_check(&mut collection, SeekFrom::Start(past_end_usize), None, 7);

    seek_and_check(&mut collection, SeekFrom::Current(before_beginning), None, 7);
    seek_and_check(&mut collection, SeekFrom::Current(past_end_isize), None, 7);

    seek_and_check(&mut collection, SeekFrom::End(1), None, 7);
    seek_and_check(&mut collection, SeekFrom::End(before_beginning), None, 7);
    seek_and_check(&mut collection, SeekFrom::End(past_end_isize), None, 7);
}

#[test]
fn clamp_to_collection_bounds() {
    // Create a messed up collection, and test clamping
    let mut collection = test_collection();
    collection.seek(SeekFrom::End(0));
    collection.get_mut().truncate(3);
    assert!(collection.position() > collection.get_ref().len());

    collection.clamp_to_collection_bounds();
    assert_eq!(collection.position(), collection.get_ref().len());

    // Create a normal collection, and test that clamping does nothing
    collection.seek(SeekFrom::Start(2));
    collection.clamp_to_collection_bounds();
    assert_eq!(collection.position(), 2);
}
