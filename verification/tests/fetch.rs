//! The command line that fetches thumbnails.

use tuitube::fetch::{curl_args, Download, PARALLEL_MAX};

fn download(id: &str) -> Download {
    Download {
        id: id.to_string(),
        url: format!("https://i.ytimg.com/vi/{id}/mqdefault.jpg"),
        path: format!("/cache/{id}.jpg"),
    }
}

fn args(count: usize) -> Vec<String> {
    let items: Vec<Download> = (0..count).map(|i| download(&format!("id{i}"))).collect();
    curl_args(&items, 10, PARALLEL_MAX)
}

#[test]
fn curl_args_pair_each_output_path_with_its_url() {
    let args = args(2);
    let pairs: Vec<&[String]> = args
        .windows(3)
        .filter(|w| w[0] == "-o")
        .map(|w| &w[..3])
        .collect();
    assert_eq!(
        pairs,
        [
            [
                "-o",
                "/cache/id0.jpg",
                "https://i.ytimg.com/vi/id0/mqdefault.jpg"
            ],
            [
                "-o",
                "/cache/id1.jpg",
                "https://i.ytimg.com/vi/id1/mqdefault.jpg"
            ],
        ]
    );
}

#[test]
fn curl_args_include_fail_silent_and_timeout() {
    let args = args(1);
    assert_eq!(args[0], "-sS");
    assert!(args.contains(&"--fail".to_string()), "{args:?}");
    let at = args.iter().position(|a| a == "--max-time").expect("上限");
    assert_eq!(args[at + 1], "10");
}

#[test]
fn curl_args_enable_parallel_transfers() {
    let args = args(3);
    assert!(args.contains(&"--parallel".to_string()), "{args:?}");
    let at = args
        .iter()
        .position(|a| a == "--parallel-max")
        .expect("同時数");
    assert_eq!(args[at + 1], "6");
}

#[test]
fn curl_args_of_a_single_item_have_the_same_shape() {
    let one = args(1);
    let two = args(2);
    assert_eq!(one[..7], two[..7]);
    assert_eq!(one.len(), 7 + 3);
    assert_eq!(two.len(), 7 + 6);
}

#[test]
fn curl_args_are_empty_for_an_empty_list() {
    assert!(curl_args(&vec![], 10, PARALLEL_MAX).is_empty());
}

#[test]
fn curl_args_never_pass_a_zero_timeout_or_zero_parallelism() {
    let items = vec![download("a")];
    let args = curl_args(&items, 0, 0);
    let timeout = args.iter().position(|a| a == "--max-time").expect("上限");
    assert_eq!(args[timeout + 1], "1");
    let parallel = args
        .iter()
        .position(|a| a == "--parallel-max")
        .expect("同時数");
    assert_eq!(args[parallel + 1], "1");
}
