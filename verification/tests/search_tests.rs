use picsumrs::search::{author_matches, filter_by_author, search_page_size, ImageInfo, SearchScan};

fn record(id: u32, author: &str) -> ImageInfo {
    ImageInfo {
        id: id.to_string(),
        author: String::from(author),
        width: 3000,
        height: 2000,
        url: format!("https://picsum.photos/id/{}", id),
        download_url: format!("https://picsum.photos/id/{}/3000/2000", id),
    }
}

fn page_of(n: usize, start: u32, matching: &[u32], author: &str) -> Vec<ImageInfo> {
    let mut page = Vec::new();
    for i in 0..n {
        let id = start + i as u32;
        if matching.contains(&id) {
            page.push(record(id, author));
        } else {
            page.push(record(id, "Somebody Else"));
        }
    }
    page
}

#[test]
fn matching_is_case_insensitive() {
    assert!(author_matches("ANNIE SPRATT", "annie"));
    assert!(author_matches("annie spratt", "ANNIE"));
    assert!(author_matches("Annie Spratt", "sprat"));
    assert!(!author_matches("Annie Spratt", "marcus"));
    assert!(author_matches("Marcus", ""));
}

#[test]
fn filtering_keeps_matches_in_order() {
    let records = vec![
        record(1, "Alejandro Escamilla"),
        record(2, "Annie Spratt"),
        record(3, "Paul Jarvis"),
        record(4, "ANNIE LEIBOVITZ"),
    ];
    let found = filter_by_author(records, "annie");
    assert_eq!(found.len(), 2);
    assert_eq!(found[0].id, "2");
    assert_eq!(found[1].id, "4");
}

#[test]
fn search_scan_stops_once_the_limit_is_reached() {
    // A catalog of 3 pages of 30 records each; only page 2 holds 5 records
    // whose author matches, case-insensitively. With limit 3 the scan must
    // return exactly 3 matches and fetch at most 3 pages.
    let page_size = search_page_size() as usize;
    assert_eq!(page_size, 30);
    let matching = [31, 35, 40, 44, 59];
    let catalog = vec![
        page_of(page_size, 1, &matching, "ANSEL ADAMS"),
        page_of(page_size, 31, &matching, "ANSEL ADAMS"),
        page_of(page_size, 61, &matching, "ANSEL ADAMS"),
    ];
    let mut scan = SearchScan::new(String::from("ansel"), 3);
    let mut fetches = 0usize;
    while let Some(page) = scan.next_page_to_fetch() {
        assert!(page >= 1 && page as usize <= catalog.len());
        let records: Vec<ImageInfo> = catalog[(page - 1) as usize]
            .iter()
            .map(|r| ImageInfo {
                id: r.id.clone(),
                author: r.author.clone(),
                width: r.width,
                height: r.height,
                url: r.url.clone(),
                download_url: r.download_url.clone(),
            })
            .collect();
        scan.feed_page(records);
        fetches += 1;
    }
    assert!(fetches <= 3);
    let results = scan.into_results();
    assert_eq!(results.len(), 3);
    assert_eq!(results[0].id, "31");
    assert_eq!(results[1].id, "35");
    assert_eq!(results[2].id, "40");
    for r in &results {
        assert!(author_matches(&r.author, "ansel"));
    }
}

#[test]
fn search_scan_ends_at_an_empty_page() {
    let page_size = search_page_size() as usize;
    let catalog = vec![
        page_of(page_size, 1, &[7], "Lone Match"),
        Vec::new(),
    ];
    let mut scan = SearchScan::new(String::from("lone"), 10);
    let mut fetches = 0usize;
    while let Some(page) = scan.next_page_to_fetch() {
        let records = if (page as usize) <= catalog.len() {
            catalog[(page - 1) as usize]
                .iter()
                .map(|r| ImageInfo {
                    id: r.id.clone(),
                    author: r.author.clone(),
                    width: r.width,
                    height: r.height,
                    url: r.url.clone(),
                    download_url: r.download_url.clone(),
                })
                .collect()
        } else {
            Vec::new()
        };
        scan.feed_page(records);
        fetches += 1;
    }
    assert_eq!(fetches, 2);
    let results = scan.into_results();
    assert_eq!(results.len(), 1);
    assert_eq!(results[0].id, "7");
}

#[test]
fn search_scan_never_fetches_past_the_page_cap() {
    // Every page is full and nothing matches: the scan gives up after ten
    // pages.
    let page_size = search_page_size() as usize;
    let mut scan = SearchScan::new(String::from("nobody"), 5);
    let mut fetches = 0u32;
    while let Some(page) = scan.next_page_to_fetch() {
        assert_eq!(page, fetches + 1);
        scan.feed_page(page_of(page_size, page * 100, &[], "Somebody"));
        fetches += 1;
    }
    assert_eq!(fetches, 10);
    assert_eq!(scan.into_results().len(), 0);
}
