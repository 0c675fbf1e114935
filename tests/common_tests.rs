use oramacore_client::types::{Message, Role};
use std::time::{SystemTime, UNIX_EPOCH};

#[derive(Debug, Clone, PartialEq)]
struct TestDocument {
    id: String,
    title: String,
    content: String,
    category: String,
    tags: Option<Vec<String>>,
}

#[derive(Debug, Clone, PartialEq)]
struct TestUser {
    id: String,
    name: String,
    email: String,
}

fn create_test_documents() -> Vec<TestDocument> {
    let doc = |id: &str, title: &str, content: &str, category: &str, tags: &[&str]| TestDocument {
        id: id.to_string(),
        title: title.to_string(),
        content: content.to_string(),
        category: category.to_string(),
        tags: Some(tags.iter().map(|t| t.to_string()).collect()),
    };
    vec![
        doc("doc1", "Introduction to Machine Learning", "Machine learning is a method of data analysis that automates analytical model building. It is a branch of artificial intelligence based on the idea that systems can learn from data, identify patterns and make decisions with minimal human intervention; machine learning models improve with experience.", "Technology", &["AI", "ML", "Data Science"]),
        doc("doc2", "Deep Learning Networks", "Deep learning is part of a broader family of machine learning methods based on artificial neural networks with representation learning. Learning can be supervised, semi-supervised or unsupervised.", "AI", &["Deep Learning", "Neural Networks", "AI"]),
        doc("doc3", "Natural Language Processing Fundamentals", "Natural language processing (NLP) is a subfield of linguistics, computer science, and artificial intelligence concerned with the interactions between computers and human language.", "AI", &["NLP", "Linguistics", "AI"]),
        doc("doc4", "Computer Vision Applications", "Computer vision is an interdisciplinary scientific field that deals with how computers can gain high-level understanding from digital images or videos.", "Technology", &["Computer Vision", "Image Processing", "AI"]),
        doc("doc5", "Robotics and Automation", "Robotics is an interdisciplinary branch of computer science and engineering that involves the conception, design, manufacture, and operation of robots.", "Engineering", &["Robotics", "Automation", "Engineering"]),
    ]
}

fn create_test_users() -> Vec<TestUser> {
    let user = |id: &str, name: &str, email: &str| TestUser {
        id: id.to_string(),
        name: name.to_string(),
        email: email.to_string(),
    };
    vec![
        user("user1", "John Doe", "john.doe@example.com"),
        user("user2", "Jane Smith", "jane.smith@example.com"),
        user("user3", "Bob Johnson", "bob.johnson@example.com"),
    ]
}

fn generate_test_id() -> String {
    let timestamp = SystemTime::now()
        .duration_since(UNIX_EPOCH)
        .unwrap()
        .as_nanos();
    format!("test_{}", timestamp)
}

#[test]
fn test_create_test_documents() {
    let docs = create_test_documents();
    assert_eq!(docs.len(), 5);
    assert_eq!(docs[0].id, "doc1");
    assert!(docs[0].content.contains("machine learning"));
}

#[test]
fn test_create_test_users() {
    let users = create_test_users();
    assert_eq!(users.len(), 3);
    assert_eq!(users[0].name, "John Doe");
}

#[test]
fn test_generate_test_id() {
    let id1 = generate_test_id();
    let id2 = generate_test_id();

    assert!(id1.starts_with("test_"));
    assert!(id2.starts_with("test_"));
    assert_ne!(id1, id2);
}

#[test]
fn messages_compare_by_role_and_content() {
    let a = Message { role: Role::User, content: "hi".to_string() };
    assert_eq!(a.clone(), a);
    assert_ne!(a, Message { role: Role::Assistant, content: "hi".to_string() });
}
