//! The printing engine's threaded state: fresh group ids and argument flags.

use semantic_names::prettier::{GroupIdBuilder, PrettierArgs};

#[test]
fn test_next_id_counts_up_from_one() {
    let mut builder = GroupIdBuilder::default();
    assert_eq!(builder.next_id(), 1);
    assert_eq!(builder.next_id(), 2);
    assert_eq!(builder.next_id(), 3);
}

#[test]
fn test_prettier_args() {
    let default_args = PrettierArgs::default();
    assert!(!default_args.expand_first_arg());
    assert!(!default_args.expand_last_arg());
    let args = PrettierArgs::new(true, false);
    assert!(args.expand_first_arg());
    assert!(!args.expand_last_arg());
}
