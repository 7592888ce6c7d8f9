use std::collections::HashSet;

use deepresearch::retrieval::{
    IngestDocument, ScoredHit, StubRetriever, empty_result_placeholder, lexical_boost_milli,
    rank_documents, score_hits, tokenize,
};

#[test]
fn tokenize_deduplicates_keywords() {
    let tokens = tokenize("Rust enables resilient Rust research agents, rust!");
    assert!(tokens.contains(&"rust".to_string()));
    assert!(tokens.contains(&"enables".to_string()));
    assert_eq!(tokens.len(), tokens.iter().collect::<HashSet<_>>().len());
    assert!(tokens.iter().all(|token| token.chars().count() >= 3));
}

#[test]
fn lexical_boost_returns_overlap_ratio() {
    let query_tokens = vec!["rust".to_string(), "research".to_string()];
    let score = lexical_boost_milli(&query_tokens, &vec!["rust".to_string(), "agent".to_string()]);
    assert!(score > 0);
    assert_eq!(score, 500);

    let zero = lexical_boost_milli(&query_tokens, &vec!["python".to_string()]);
    assert_eq!(zero, 0);
}

#[test]
fn tokenize_caps_and_filters() {
    let many: String = (0..50).map(|i| format!("keyword{i} ")).collect();
    let tokens = tokenize(&many);
    assert_eq!(tokens.len(), 32);
    let short = tokenize("a bb xy");
    assert!(short.is_empty());
}

#[test]
fn lexical_boost_promotes_a_keyword_hit() {
    let hits = vec![
        ScoredHit {
            text: "rust research agents".to_string(),
            source: Some("a".to_string()),
            keywords: tokenize("rust research agents"),
            dense_score_milli: 0,
        },
        ScoredHit {
            text: "python notebook".to_string(),
            source: Some("b".to_string()),
            keywords: tokenize("python notebook"),
            dense_score_milli: 0,
        },
    ];
    let scored = score_hits("rust", hits);
    let ranked = rank_documents(scored, 2);
    assert_eq!(ranked.len(), 2);
    assert_eq!(ranked[0].text, "rust research agents");
    assert!(ranked[0].score_milli >= ranked[1].score_milli);
    assert_eq!(ranked[0].score_milli, 1000);
}

#[test]
fn boost_never_lowers_the_dense_score() {
    let hits = vec![ScoredHit {
        text: "rust".to_string(),
        source: None,
        keywords: tokenize("rust things"),
        dense_score_milli: 250,
    }];
    let scored = score_hits("rust", hits);
    assert!(scored[0].score_milli >= 250);
}

#[test]
fn stub_returns_placeholder_when_empty() {
    let stub = StubRetriever::new();
    let docs = stub.retrieve("missing", 5);
    assert_eq!(docs.len(), 1);
    assert_eq!(docs[0].score_milli, 0);
    assert!(docs[0].source.is_none());
}

#[test]
fn stub_returns_first_inserts_with_full_score() {
    let mut stub = StubRetriever::new();
    stub.ingest(
        "t",
        vec![
            IngestDocument { id: "1".to_string(), text: "alpha".to_string(), source: None },
            IngestDocument {
                id: "2".to_string(),
                text: "beta".to_string(),
                source: Some("s".to_string()),
            },
            IngestDocument { id: "3".to_string(), text: "gamma".to_string(), source: None },
        ],
    );
    let docs = stub.retrieve("t", 2);
    assert_eq!(docs.len(), 2);
    assert_eq!(docs[0].text, "alpha");
    assert_eq!(docs[0].score_milli, 1000);
    assert_eq!(docs[0].source, Some("stub://memory".to_string()));
    assert_eq!(docs[1].text, "beta");
    assert_eq!(docs[1].source, Some("s".to_string()));
}

#[test]
fn empty_hybrid_results_become_a_placeholder() {
    let scored = score_hits("anything", Vec::new());
    let ranked = rank_documents(scored, 5);
    assert!(ranked.is_empty());
    let placeholder = empty_result_placeholder();
    assert_eq!(placeholder.score_milli, 0);
    assert!(placeholder.source.is_none());
    assert_eq!(
        placeholder.text,
        "No indexed documents matched the query yet; consider ingesting supporting material."
    );
}

#[test]
fn ranking_orders_by_score_descending() {
    let docs = score_hits(
        "alpha beta",
        vec![
            ScoredHit {
                text: "low".to_string(),
                source: None,
                keywords: tokenize("nothing shared"),
                dense_score_milli: 100,
            },
            ScoredHit {
                text: "high".to_string(),
                source: None,
                keywords: tokenize("alpha beta"),
                dense_score_milli: 100,
            },
            ScoredHit {
                text: "middle".to_string(),
                source: None,
                keywords: tokenize("alpha only"),
                dense_score_milli: 100,
            },
        ],
    );
    let ranked = rank_documents(docs, 2);
    assert_eq!(ranked.len(), 2);
    assert_eq!(ranked[0].text, "high");
    assert_eq!(ranked[1].text, "middle");
}

#[test]
fn ingest_is_scoped_to_its_session() {
    let mut stub = StubRetriever::new();
    stub.ingest(
        "one",
        vec![IngestDocument { id: "a".to_string(), text: "alpha".to_string(), source: None }],
    );
    stub.ingest(
        "two",
        vec![IngestDocument { id: "b".to_string(), text: "beta".to_string(), source: None }],
    );
    stub.ingest(
        "one",
        vec![IngestDocument { id: "c".to_string(), text: "gamma".to_string(), source: None }],
    );

    let one = stub.retrieve("one", 5);
    assert_eq!(one.len(), 2);
    assert_eq!(one[0].text, "alpha");
    assert_eq!(one[1].text, "gamma");

    let two = stub.retrieve("two", 5);
    assert_eq!(two.len(), 1);
    assert_eq!(two[0].text, "beta");

    let other = stub.retrieve("three", 5);
    assert_eq!(other.len(), 1);
    assert_eq!(other[0].score_milli, 0);
}
