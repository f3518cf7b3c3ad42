use youmubot::args::{arg_from_username_or_discord, listing_style, ScoreListStyle, UsernameArg};
use youmubot::errors::CommandError;
use youmubot::listing::{plan_listing, ListingKind, ListingPlan, Nth};
use youmubot::ranking::order_by_key_desc;

#[test]
fn username_wins_over_discord_user() {
    assert_eq!(
        arg_from_username_or_discord(Some("mrekk".to_string()), Some(5)),
        Some(UsernameArg::Raw("mrekk".to_string()))
    );
    assert_eq!(arg_from_username_or_discord(None, Some(5)), Some(UsernameArg::Tagged(5)));
    assert_eq!(arg_from_username_or_discord(None, None), None);
}

#[test]
fn listing_style_defaults_to_table() {
    assert_eq!(listing_style(None), ScoreListStyle::Table);
    assert_eq!(listing_style(Some(ScoreListStyle::Grid)), ScoreListStyle::Grid);
}

#[test]
fn listing_kinds() {
    assert_eq!(ListingKind::Top.name(), "top");
    assert_eq!(ListingKind::Recent.name(), "recent");
    assert_eq!(ListingKind::Pinned.name(), "pinned");
    assert_eq!(ListingKind::Top.fetch_limit(), 100);
    assert_eq!(ListingKind::Recent.fetch_limit(), 50);
    assert_eq!(ListingKind::Pinned.fetch_limit(), 50);
}

fn is_permutation(perm: &[usize], n: usize) -> bool {
    let mut seen = vec![false; n];
    perm.len() == n && perm.iter().all(|&i| i < n && !std::mem::replace(&mut seen[i], true))
}

#[test]
fn order_by_key_desc_sorts_largest_first() {
    let keys = vec![30, 500, 12, 500, 0, 77];
    let perm = order_by_key_desc(&keys);
    assert!(is_permutation(&perm, keys.len()));
    let ordered: Vec<u64> = perm.iter().map(|&i| keys[i]).collect();
    assert_eq!(ordered, vec![500, 500, 77, 30, 12, 0]);
    assert_eq!(perm[2], 5);
    assert_eq!(perm[5], 4);
}

#[test]
fn order_by_key_desc_edge_cases() {
    assert_eq!(order_by_key_desc(&vec![]), Vec::<usize>::new());
    assert_eq!(order_by_key_desc(&vec![9]), vec![0]);
    assert_eq!(order_by_key_desc(&vec![1, 2, 3, 4]), vec![3, 2, 1, 0]);
}

#[test]
fn whole_listing_reply() {
    let plan = plan_listing(ListingKind::Recent, Nth::All, &vec![None, Some(3)], "[x](u)");
    assert_eq!(plan, Ok(ListingPlan::All { content: "Here are the recent plays by [x](u)!".to_string() }));
}

#[test]
fn single_top_play() {
    let plan = plan_listing(ListingKind::Top, Nth::Nth(1), &vec![None, Some(12), None], "[x](u)");
    assert_eq!(
        plan,
        Ok(ListingPlan::Single {
            index: 1,
            position: 2,
            top_record: Some(2),
            world_record: Some(12),
            content: "Here is the #2 top play by [x](u)!".to_string(),
        })
    );
}

#[test]
fn single_pinned_play_has_no_top_mark() {
    let plan = plan_listing(ListingKind::Pinned, Nth::Nth(0), &vec![None], "me");
    assert_eq!(
        plan,
        Ok(ListingPlan::Single {
            index: 0,
            position: 1,
            top_record: None,
            world_record: None,
            content: "Here is the #1 pinned play by me!".to_string(),
        })
    );
}

#[test]
fn world_record_is_cut_to_sixteen_bits() {
    let plan = plan_listing(ListingKind::Recent, Nth::Nth(0), &vec![Some(70000)], "me").unwrap();
    match plan {
        ListingPlan::Single { world_record, .. } => assert_eq!(world_record, Some(70000u32 as u16)),
        _ => panic!("expected a single play"),
    }
}

#[test]
fn index_past_the_plays_is_no_such_play() {
    assert_eq!(plan_listing(ListingKind::Top, Nth::Nth(3), &vec![None, None, None], "me"), Err(CommandError::NoSuchPlay));
    assert_eq!(plan_listing(ListingKind::Recent, Nth::Nth(0), &vec![], "me"), Err(CommandError::NoSuchPlay));
    assert_eq!(plan_listing(ListingKind::Top, Nth::Nth(255), &vec![None; 100], "me"), Err(CommandError::NoSuchPlay));
}

#[test]
fn only_top_is_ordered_by_pp() {
    assert!(ListingKind::Top.ordered_by_pp());
    assert!(!ListingKind::Recent.ordered_by_pp());
    assert!(!ListingKind::Pinned.ordered_by_pp());
}

#[test]
fn order_does_not_depend_on_arrival() {
    let first = vec![310, 95, 402, 250];
    let second = vec![250, 402, 310, 95];
    let a: Vec<u64> = order_by_key_desc(&first).iter().map(|&i| first[i]).collect();
    let b: Vec<u64> = order_by_key_desc(&second).iter().map(|&i| second[i]).collect();
    assert_eq!(a, vec![402, 310, 250, 95]);
    assert_eq!(a, b);
}
