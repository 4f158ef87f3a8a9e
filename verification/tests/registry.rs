use test_faker::exec::ExecError;
use test_faker::faker;
use test_faker::faker::ParamError;
use test_faker::verification;
use test_faker::verification::VerifyError;

fn fakers() -> Vec<faker::Faker<u32>> {
    let mut table = Vec::new();
    faker::register(&mut table, "kafka-producer", 10);
    faker::register(&mut table, "http-server", 20);
    faker::register(&mut table, "kafka-producer", 30);
    table
}

#[test]
fn faker_get_faker_names() {
    let names = faker::get_faker_names(&fakers());
    println!("{:#?}", names);
    assert_eq!(names, vec!["kafka-producer", "http-server", "kafka-producer"]);
    assert!(faker::get_faker_names(&Vec::<faker::Faker<u32>>::new()).is_empty());
}

#[test]
fn verifier_get_verifier_names() {
    let mut table = Vec::new();
    verification::register(&mut table, "file-comparator", 1u8);
    let names = verification::get_verifier_names(&table);
    println!("{:#?}", names);
    assert_eq!(names, vec!["file-comparator"]);
}

#[test]
fn lookup_is_exact_and_the_first_registration_wins() {
    let table = fakers();
    assert_eq!(faker::find_faker(&table, "kafka-producer"), Some(0));
    assert_eq!(faker::get_faker(&table, "kafka-producer").map(|f| f.func), Some(10));
    assert_eq!(faker::get_faker(&table, "http-server").map(|f| f.func), Some(20));
    assert_eq!(faker::find_faker(&table, "HTTP-server"), None);
    assert!(faker::get_faker(&table, "http-serve").is_none());
    assert!(faker::get_faker(&table, "").is_none());
}

#[test]
fn verifier_lookup() {
    let mut table = Vec::new();
    verification::register(&mut table, "file-comparator", 1u8);
    verification::register(&mut table, "other", 2u8);
    assert_eq!(verification::get_verifier(&table, "other").map(|v| v.func), Some(2));
    assert_eq!(verification::get_verifier(&table, "other").map(|v| v.name), Some("other"));
    assert!(verification::get_verifier(&table, "file").is_none());
}

#[test]
fn faults_are_stated_in_words() {
    assert_eq!(ParamError::BrokersEmpty.message(), "brokers cannot be empty");
    assert_eq!(ParamError::MessagesEmpty.message(), "messages cannot be empty");
    assert_eq!(ParamError::TopicOrMessageEmpty.message(), "Topic or message must not be empty!");
    assert_eq!(ParamError::TopicsEmpty.message(), "topics cannot be empty");
    assert_eq!(ParamError::ExpectedEmpty.message(), "expected cannot be empty");
    assert_eq!(ParamError::ActualEmpty.message(), "actual cannot be empty");
    assert_eq!(
        VerifyError::Different.message(),
        "Difference found between 2 files: expected & actual"
    );
    assert_eq!(VerifyError::Unreadable.message(), "a file to compare cannot be read");
    assert_eq!(ParamError::OptionKeyNotText.message(), "option keys must be strings");
    assert_eq!(
        ExecError::MissingScenarioFile.message(),
        "You must specify the scenario file (--scenario-file)"
    );
}
