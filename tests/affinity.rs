use horizon_sockets::affinity::{affinity_mask, check_cpu, check_cpus, parse_cpu_list, MASK_CPUS};
use horizon_sockets::NetError;

#[test]
fn test_parse_cpu_list() {
    assert_eq!(parse_cpu_list("0").unwrap(), vec![0]);
    assert_eq!(parse_cpu_list("0,2,4").unwrap(), vec![0, 2, 4]);
    assert_eq!(parse_cpu_list("0-3").unwrap(), vec![0, 1, 2, 3]);
    assert_eq!(parse_cpu_list("0-2,8-10").unwrap(), vec![0, 1, 2, 8, 9, 10]);
}

#[test]
fn parse_cpu_list_sorts_and_keeps_repeats() {
    assert_eq!(parse_cpu_list("8-9,1,0-1").unwrap(), vec![0, 1, 1, 8, 9]);
}

#[test]
fn parse_cpu_list_trims_and_skips_empty_items() {
    assert_eq!(parse_cpu_list(" 3 , ,1-2\n").unwrap(), vec![1, 2, 3]);
    assert_eq!(parse_cpu_list("").unwrap(), Vec::<usize>::new());
    assert_eq!(parse_cpu_list("+4").unwrap(), vec![4]);
}

#[test]
fn parse_cpu_list_empty_range_when_reversed() {
    assert_eq!(parse_cpu_list("5-3").unwrap(), Vec::<usize>::new());
}

#[test]
fn parse_cpu_list_rejects_bad_numbers() {
    assert_eq!(parse_cpu_list("a"), Err(NetError::InvalidData));
    assert_eq!(parse_cpu_list("1-"), Err(NetError::InvalidData));
    assert_eq!(parse_cpu_list("0,2-x"), Err(NetError::InvalidData));
    assert_eq!(parse_cpu_list("1 - 2"), Err(NetError::InvalidData));
    assert_eq!(parse_cpu_list("-1"), Err(NetError::InvalidData));
    assert_eq!(parse_cpu_list("99999999999999999999999"), Err(NetError::InvalidData));
}

#[test]
fn check_cpus_rules() {
    assert_eq!(check_cpus(&[], 1024), Err(NetError::InvalidInput));
    assert_eq!(check_cpus(&[0, 1023], 1024), Ok(()));
    assert_eq!(check_cpus(&[0, 1024], 1024), Err(NetError::InvalidInput));
    assert_eq!(check_cpu(1023, 1024), Ok(()));
    assert_eq!(check_cpu(1024, 1024), Err(NetError::InvalidInput));
}

#[test]
fn affinity_mask_sets_one_bit_per_cpu() {
    assert_eq!(affinity_mask(&[0, 3, 63]), Ok(1u64 | 8 | (1u64 << 63)));
    assert_eq!(affinity_mask(&[]), Ok(0));
    assert_eq!(affinity_mask(&[MASK_CPUS]), Err(NetError::InvalidInput));
}
