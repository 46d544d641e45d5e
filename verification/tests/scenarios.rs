// End-to-end runs of the service against stores that live in memory: the
// machines of the library decide, the world below performs.

use std::collections::HashMap;

use rapidl::artifact::{compress_artifact, job_cache_key, new_job_id, object_key};
use rapidl::credits::{
    cache_ttl, credits_key, decrement_total_credits, expire_key, get_total_credits,
    get_total_credits_with_conn, increment_total_credits, Balance, BalanceOutcome, BalanceStep,
    DecrementOutcome, DecrementStep, FetchError, IncrementStep, IncrementTotalCreditsError,
    StepOutcome,
};
use rapidl::engine::{generate_from_options, GenerateFailure, GENERATE_QUESTIONS_PER_TOPIC};
use rapidl::ledger::{Control, CreditGrant};
use rapidl::options::{generate_options_to_string, GenerateId, GenerateOption};
use rapidl::response::Rejection;
use rapidl::status::GenerationStatus;
use rapidl::submit::{request, Accepted, RequestPayload, SubmitOutcome, SubmitStep};
use rapidl::text::i64_to_string;
use rapidl::worker::{
    flag_as_failure, generate, handler, FlagOutcome, FlagStep, GenerateOutcome, GenerateStep,
    GenerationError, HandlerOutcome, HandlerStep, SQSBody, FAILED_TTL, SUCCESS_TTL, WORKING_TTL,
};

const STANDARD_LIFETIME: i64 = 60 * 60 * 24 * 7 * 3;

struct JobRow {
    user_id: i64,
    status: GenerationStatus,
    credits_used: i16,
    finished_on: Option<i64>,
    options: String,
}

#[derive(Default)]
struct Faults {
    publish: bool,
    insert_job: bool,
    cache_invalidate: bool,
    cache_success: bool,
}

struct World {
    now: i64,
    next_grant_id: i32,
    grants: Vec<CreditGrant>,
    cache: HashMap<String, (String, i64)>,
    jobs: HashMap<String, JobRow>,
    queue: Vec<SQSBody>,
    objects: HashMap<String, Vec<u8>>,
    generator_runs: usize,
    /// What the generator says; `None` asks the engine of the library.
    generator: Option<Result<(), GenerateFailure>>,
    faults: Faults,
}

impl World {
    fn new(now: i64) -> World {
        World {
            now,
            next_grant_id: 1,
            grants: Vec::new(),
            cache: HashMap::new(),
            jobs: HashMap::new(),
            queue: Vec::new(),
            objects: HashMap::new(),
            generator_runs: 0,
            generator: None,
            faults: Faults::default(),
        }
    }

    fn insert_grant(&mut self, user_id: i64, amount: i32, expires_at: i64) {
        let grant_id = self.next_grant_id;
        self.next_grant_id += 1;
        self.grants.push(CreditGrant { grant_id, user_id, amount, expires_at });
    }

    fn live_grants(&self, user_id: i64) -> Vec<CreditGrant> {
        let mut live: Vec<CreditGrant> = self
            .grants
            .iter()
            .filter(|g| g.user_id == user_id && g.expires_at > self.now)
            .copied()
            .collect();
        live.sort_by_key(|g| g.expires_at);
        live
    }

    fn ledger_total(&self, user_id: i64) -> i64 {
        self.live_grants(user_id).iter().map(|g| g.amount as i64).sum()
    }

    fn invalidate_balance(&mut self, user_id: i64) {
        self.cache.remove(&credits_key(user_id));
        self.cache.remove(&expire_key(user_id));
    }

    fn cached_number(&self, key: &str) -> Option<i64> {
        self.cache.get(key).map(|(value, _)| value.parse().unwrap())
    }

    fn read_balance(&mut self, user_id: i64, with_conn: bool) -> Result<Balance, FetchError> {
        let mut read =
            if with_conn { get_total_credits_with_conn(self.now) } else { get_total_credits(self.now) };
        loop {
            let outcome = match read.step {
                BalanceStep::OpenRedis | BalanceStep::OpenPostgres => BalanceOutcome::Opened,
                BalanceStep::ReadCache => BalanceOutcome::Cached {
                    expire: self.cached_number(&expire_key(user_id)),
                    credits: self.cached_number(&credits_key(user_id)),
                },
                BalanceStep::QueryLedger => {
                    let live = self.live_grants(user_id);
                    if live.is_empty() {
                        BalanceOutcome::Aggregated { sum: None, earliest: None }
                    } else {
                        BalanceOutcome::Aggregated {
                            sum: Some(live.iter().map(|g| g.amount as i64).sum()),
                            earliest: live.iter().map(|g| g.expires_at).min(),
                        }
                    }
                }
                BalanceStep::WriteCache { total, expiry, ttl } => {
                    assert_eq!(ttl, cache_ttl(expiry, self.now));
                    self.cache.insert(credits_key(user_id), (i64_to_string(total), ttl));
                    self.cache.insert(expire_key(user_id), (i64_to_string(expiry), ttl));
                    BalanceOutcome::Written
                }
                BalanceStep::Finish(result) => return result,
            };
            read = read.advance(outcome);
        }
    }

    fn increment(
        &mut self,
        user_id: i64,
        amount: i32,
        duration: i64,
    ) -> Result<(), IncrementTotalCreditsError> {
        let mut run = increment_total_credits(user_id, amount, duration, self.now, false, false);
        loop {
            let outcome = match run.step {
                IncrementStep::OpenRedis | IncrementStep::OpenPostgres => StepOutcome::Done,
                IncrementStep::InsertGrant { user_id, amount, expires_at } => {
                    self.insert_grant(user_id, amount, expires_at);
                    StepOutcome::Done
                }
                IncrementStep::InvalidateCache { user_id } => {
                    if self.faults.cache_invalidate {
                        StepOutcome::Failed
                    } else {
                        self.invalidate_balance(user_id);
                        StepOutcome::Done
                    }
                }
                IncrementStep::Finish(result) => return result,
            };
            run = run.advance(outcome);
        }
    }

    fn decrement(&mut self, user_id: i64, amount: i32) -> Result<Balance, IncrementTotalCreditsError> {
        let mut run = decrement_total_credits(user_id, amount, false, false);
        loop {
            let outcome = match run.step {
                DecrementStep::OpenRedis | DecrementStep::OpenPostgres => DecrementOutcome::Done,
                DecrementStep::ReadBalance => {
                    DecrementOutcome::Balance(self.read_balance(user_id, true))
                }
                DecrementStep::LoadGrants { .. } => {
                    DecrementOutcome::Grants(self.live_grants(user_id))
                }
                DecrementStep::ApplyControls { .. } => {
                    for control in run.controls.iter() {
                        match *control {
                            Control::Delete(id) => self.grants.retain(|g| g.grant_id != id),
                            Control::Update(id, amount) => {
                                for g in self.grants.iter_mut() {
                                    if g.grant_id == id {
                                        g.amount = amount;
                                    }
                                }
                            }
                        }
                    }
                    DecrementOutcome::Done
                }
                DecrementStep::Rollback => DecrementOutcome::Done,
                DecrementStep::InvalidateCache { .. } => {
                    if self.faults.cache_invalidate {
                        DecrementOutcome::Failed
                    } else {
                        self.invalidate_balance(user_id);
                        DecrementOutcome::Done
                    }
                }
                DecrementStep::Finish(result) => return result,
            };
            run = run.advance(outcome);
        }
    }

    fn submit(
        &mut self,
        user_id: i64,
        payload: RequestPayload,
    ) -> (String, Result<Accepted, Rejection>) {
        let job_id = new_job_id();
        let mut run = request(&payload);
        loop {
            let outcome = match run.step {
                SubmitStep::ReadBalance => SubmitOutcome::Balance(self.read_balance(user_id, false)),
                SubmitStep::Decrement { amount } => {
                    SubmitOutcome::Spent(self.decrement(user_id, amount))
                }
                SubmitStep::OpenPostgres | SubmitStep::OpenRedis => SubmitOutcome::Done,
                SubmitStep::InsertJob { credits_used, status } => {
                    if self.faults.insert_job {
                        SubmitOutcome::Failed
                    } else {
                        self.jobs.insert(
                            job_id.clone(),
                            JobRow {
                                user_id,
                                status,
                                credits_used,
                                finished_on: None,
                                options: generate_options_to_string(&payload.choices),
                            },
                        );
                        SubmitOutcome::Done
                    }
                }
                SubmitStep::SeedCache { status, ttl } => {
                    self.cache.insert(job_cache_key(&job_id), (status.label().to_string(), ttl));
                    SubmitOutcome::Done
                }
                SubmitStep::Publish => {
                    if self.faults.publish {
                        SubmitOutcome::Failed
                    } else {
                        self.queue.push(SQSBody {
                            user_id,
                            job_id: job_id.clone(),
                            gen_id: payload.payload_id,
                            opts: payload.choices.clone(),
                            created_at: self.now,
                        });
                        SubmitOutcome::Done
                    }
                }
                SubmitStep::Refund { amount } => {
                    let _ = self.increment(user_id, amount, STANDARD_LIFETIME);
                    SubmitOutcome::Done
                }
                SubmitStep::Unseed => {
                    self.cache.remove(&job_cache_key(&job_id));
                    SubmitOutcome::Done
                }
                SubmitStep::Finish(result) => return (job_id, result),
            };
            run = run.advance(outcome);
        }
    }

    fn work(&mut self, body: &SQSBody) -> Result<(), GenerationError> {
        let mut step = generate(body);
        let mut packed: Vec<u8> = Vec::new();
        loop {
            let outcome = match step {
                GenerateStep::OpenPostgres
                | GenerateStep::OpenPostgresForResult
                | GenerateStep::OpenRedis => GenerateOutcome::Done,
                GenerateStep::ReadJobForUpdate => match self.jobs.get(&body.job_id) {
                    Some(row) if row.user_id == body.user_id => GenerateOutcome::Job {
                        status: row.status,
                        credits_used: row.credits_used,
                    },
                    _ => GenerateOutcome::Failed,
                },
                GenerateStep::MarkWorking => {
                    self.jobs.get_mut(&body.job_id).unwrap().status = GenerationStatus::Working;
                    GenerateOutcome::Done
                }
                GenerateStep::RefundAndRemove { credits } => {
                    let expires = self.now + STANDARD_LIFETIME;
                    self.insert_grant(body.user_id, credits as i32, expires);
                    self.jobs.remove(&body.job_id);
                    GenerateOutcome::Done
                }
                GenerateStep::RemoveJob => {
                    self.jobs.remove(&body.job_id);
                    GenerateOutcome::Done
                }
                GenerateStep::InvalidateBalance => {
                    self.invalidate_balance(body.user_id);
                    GenerateOutcome::Done
                }
                GenerateStep::RunGenerator => {
                    self.generator_runs += 1;
                    match self.generator {
                        Some(said) => GenerateOutcome::Generated(said),
                        None => match generate_from_options(
                            body.gen_id,
                            GENERATE_QUESTIONS_PER_TOPIC,
                            &body.opts,
                        ) {
                            Ok(_) => GenerateOutcome::Generated(Ok(())),
                            Err(failure) => GenerateOutcome::Generated(Err(failure)),
                        },
                    }
                }
                GenerateStep::Pack => match compress_artifact(&b"a paper".to_vec()) {
                    Some(bytes) => {
                        packed = bytes;
                        GenerateOutcome::Done
                    }
                    None => GenerateOutcome::CompressFailed,
                },
                GenerateStep::Upload => {
                    self.objects.insert(object_key(&body.job_id), packed.clone());
                    GenerateOutcome::Done
                }
                GenerateStep::MarkSuccess => {
                    let row = self.jobs.get_mut(&body.job_id).unwrap();
                    if row.status == GenerationStatus::Working {
                        row.status = GenerationStatus::Success;
                        row.finished_on = Some(self.now);
                    }
                    GenerateOutcome::Done
                }
                GenerateStep::CacheSuccess { status, ttl } => {
                    if self.faults.cache_success {
                        GenerateOutcome::Failed
                    } else {
                        self.cache
                            .insert(job_cache_key(&body.job_id), (status.label().to_string(), ttl));
                        GenerateOutcome::Done
                    }
                }
                GenerateStep::Finish(result) => return result,
            };
            step = step.advance(outcome);
        }
    }

    fn flag(&mut self, body: &SQSBody) -> bool {
        let mut step = flag_as_failure(&body.job_id);
        loop {
            let outcome = match step {
                FlagStep::OpenPostgres => FlagOutcome::Done,
                FlagStep::ReadJobForUpdate => match self.jobs.get(&body.job_id) {
                    Some(row) => {
                        FlagOutcome::Job { status: row.status, credits_used: row.credits_used }
                    }
                    None => FlagOutcome::Missing,
                },
                FlagStep::RefundAndMarkFailed { credits } => {
                    let expires = self.now + STANDARD_LIFETIME;
                    self.insert_grant(body.user_id, credits as i32, expires);
                    self.jobs.get_mut(&body.job_id).unwrap().status = GenerationStatus::Failed;
                    FlagOutcome::Done
                }
                FlagStep::MarkFailed => {
                    self.jobs.get_mut(&body.job_id).unwrap().status = GenerationStatus::Failed;
                    FlagOutcome::Done
                }
                FlagStep::InvalidateBalance => {
                    self.invalidate_balance(body.user_id);
                    FlagOutcome::Done
                }
                FlagStep::CacheFailed { status, ttl } => {
                    self.cache
                        .insert(job_cache_key(&body.job_id), (status.label().to_string(), ttl));
                    FlagOutcome::Done
                }
                FlagStep::Finish(retry) => return retry,
            };
            step = step.advance(outcome);
        }
    }

    /// Delivers the message at the head of the queue once; it stays in the
    /// queue unless the worker deletes it.
    fn deliver(&mut self, index: usize) {
        let body = self.queue[index].clone();
        let mut step = handler(true, true, true);
        loop {
            let outcome = match step {
                HandlerStep::Generate => HandlerOutcome::Generated(self.work(&body)),
                HandlerStep::FlagAsFailure => HandlerOutcome::Flagged(self.flag(&body)),
                HandlerStep::DeleteMessage => {
                    self.queue.retain(|m| m.job_id != body.job_id);
                    HandlerOutcome::Deleted
                }
                HandlerStep::Finish => return,
            };
            step = step.advance(outcome);
        }
    }
}

fn three_options() -> RequestPayload {
    RequestPayload {
        choices: vec![GenerateOption::SUVAT, GenerateOption::Vectors, GenerateOption::Graphs],
        payload_id: GenerateId::MathsMechanics,
    }
}

fn three_supported_options() -> RequestPayload {
    RequestPayload {
        choices: vec![GenerateOption::SUVAT, GenerateOption::Vectors],
        payload_id: GenerateId::MathsMechanics,
    }
}

#[test]
fn no_credits_rejects_before_any_write() {
    let mut world = World::new(1_000);
    let (_, result) = world.submit(7, three_options());
    assert_eq!(result, Err(Rejection::InsufficientCredits));
    assert!(world.jobs.is_empty());
    assert!(world.queue.is_empty());
    assert!(world.grants.is_empty());
}

#[test]
fn five_credits_three_options_success_leaves_two() {
    let mut world = World::new(1_000);
    world.generator = Some(Ok(()));
    world.increment(7, 5, 10_000).unwrap();
    let (job_id, result) = world.submit(7, three_options());
    assert_eq!(result, Ok(Accepted { credits_left: 2, next_fetch: 11_000 }));
    assert_eq!(world.read_balance(7, false).unwrap().total, 2);
    assert_eq!(world.jobs[&job_id].status, GenerationStatus::Waiting);
    assert_eq!(world.jobs[&job_id].credits_used, 3);
    assert_eq!(world.jobs[&job_id].options, "SUVAT,Vectors,Graphs");
    assert_eq!(world.cache[&job_cache_key(&job_id)], ("Working".to_string(), WORKING_TTL));
    assert_eq!(world.queue.len(), 1);

    world.deliver(0);
    assert!(world.queue.is_empty());
    assert_eq!(world.jobs[&job_id].status, GenerationStatus::Success);
    assert_eq!(world.jobs[&job_id].finished_on, Some(1_000));
    assert_eq!(world.cache[&job_cache_key(&job_id)], ("Success".to_string(), SUCCESS_TTL));
    let stored = &world.objects[&object_key(&job_id)];
    assert_eq!(&stored[..3], &[0x1f, 0x8b, 8]);
    assert_eq!(world.read_balance(7, false).unwrap().total, 2);
    assert_eq!(world.ledger_total(7), 2);
}

#[test]
fn same_option_twice_is_turned_down() {
    let mut world = World::new(1_000);
    world.increment(7, 5, 10_000).unwrap();
    let payload = RequestPayload {
        choices: vec![GenerateOption::SUVAT, GenerateOption::Vectors, GenerateOption::SUVAT],
        payload_id: GenerateId::MathsMechanics,
    };
    assert_eq!(world.submit(7, payload).1, Err(Rejection::DuplicateChoices));
    assert_eq!(world.ledger_total(7), 5);
    assert!(world.jobs.is_empty());
}

#[test]
fn unsupported_option_fails_the_job_and_refunds() {
    let mut world = World::new(1_000);
    world.generator =
        Some(Err(GenerateFailure::InvalidOption(GenerateOption::Graphs)));
    world.increment(7, 5, 10_000).unwrap();
    let (job_id, result) = world.submit(7, three_options());
    assert_eq!(result.map(|a| a.credits_left), Ok(2));
    assert_eq!(world.read_balance(7, false).unwrap().total, 2);
    world.deliver(0);
    assert_eq!(world.jobs[&job_id].status, GenerationStatus::Failed);
    assert_eq!(world.jobs[&job_id].finished_on, None);
    assert!(world.queue.is_empty());
    assert!(world.objects.is_empty());
    assert_eq!(world.cache[&job_cache_key(&job_id)], ("Failed".to_string(), FAILED_TTL));
    assert_eq!(world.read_balance(7, false).unwrap().total, 5);
}

#[test]
fn generator_failure_names_the_option() {
    let mut world = World::new(1_000);
    world.increment(7, 5, 10_000).unwrap();
    let (_, _) = world.submit(7, three_options());
    let body = world.queue[0].clone();
    assert_eq!(
        world.work(&body),
        Err(GenerationError::InternalGenerationFailure(GenerateFailure::InvalidOption(
            GenerateOption::Graphs
        )))
    );
}

#[test]
fn success_whose_cache_write_fails_is_not_made_a_failure() {
    let mut world = World::new(1_000);
    world.generator = Some(Ok(()));
    world.increment(7, 5, 10_000).unwrap();
    let (job_id, _) = world.submit(7, three_options());
    world.faults.cache_success = true;

    // The message stays, the job stays a success and nothing comes back.
    world.deliver(0);
    assert_eq!(world.generator_runs, 1);
    assert_eq!(world.queue.len(), 1);
    assert_eq!(world.jobs[&job_id].status, GenerationStatus::Success);
    assert_eq!(world.cache[&job_cache_key(&job_id)], ("Working".to_string(), WORKING_TTL));
    assert_eq!(world.ledger_total(7), 2);

    // Delivered again, it is acknowledged without a second run.
    world.faults.cache_success = false;
    let runs = world.generator_runs;
    world.deliver(0);
    assert!(world.queue.is_empty());
    assert_eq!(world.generator_runs, runs);
    assert_eq!(world.jobs[&job_id].status, GenerationStatus::Success);
    assert_eq!(world.ledger_total(7), 2);
    assert!(world.objects.contains_key(&object_key(&job_id)));
}

#[test]
fn spend_of_the_first_grant_tells_when_the_next_runs_out() {
    let mut world = World::new(1_000);
    world.increment(7, 3, 3_600).unwrap();
    world.increment(7, 5, 7_200).unwrap();
    assert_eq!(world.decrement(7, 3), Ok(Balance { total: 5, earliest_expiry: 8_200 }));
    assert_eq!(world.read_balance(7, false), Ok(Balance { total: 5, earliest_expiry: 8_200 }));
    assert_eq!(world.decrement(7, 5).map(|b| b.total), Ok(0));
    assert_eq!(world.ledger_total(7), 0);
}

#[test]
fn grant_of_nothing_changes_nothing() {
    let mut world = World::new(1_000);
    world.increment(7, 5, 10_000).unwrap();
    assert_eq!(world.increment(7, 0, 10_000), Err(IncrementTotalCreditsError::BadData));
    assert_eq!(world.increment(7, -4, 10_000), Err(IncrementTotalCreditsError::BadData));
    assert_eq!(world.grants.len(), 1);
    assert_eq!(world.ledger_total(7), 5);
}

#[test]
fn message_delivered_twice_runs_once_and_refunds_once() {
    let mut world = World::new(1_000);
    world.increment(7, 5, 10_000).unwrap();
    let (job_id, _) = world.submit(7, three_options());
    let body = world.queue[0].clone();
    // Two workers hold the same message; the first claims the job.
    assert!(world.work(&body).is_err());
    assert_eq!(world.jobs[&job_id].status, GenerationStatus::Working);
    // The second meets `Working`: no work, no error.
    assert_eq!(world.work(&body), Ok(()));
    assert_eq!(world.generator_runs, 1);
    // Both write the failure; only the first finds the job working.
    assert!(!world.flag(&body));
    assert!(!world.flag(&body));
    assert_eq!(world.jobs[&job_id].status, GenerationStatus::Failed);
    assert_eq!(world.ledger_total(7), 5);
}

#[test]
fn success_delivered_twice_stays_one_success() {
    let mut world = World::new(1_000);
    world.increment(7, 5, 10_000).unwrap();
    let (job_id, _) = world.submit(7, three_supported_options());
    let body = world.queue[0].clone();
    assert_eq!(world.work(&body), Ok(()));
    assert_eq!(world.work(&body), Err(GenerationError::DeleteImmediately));
    assert!(!world.flag(&body));
    assert_eq!(world.generator_runs, 1);
    assert_eq!(world.jobs[&job_id].status, GenerationStatus::Success);
    assert_eq!(world.ledger_total(7), 3);
}

#[test]
fn failed_publish_refunds_and_unseeds() {
    let mut world = World::new(1_000);
    world.increment(7, 5, 10_000).unwrap();
    world.faults.publish = true;
    let (job_id, result) = world.submit(7, three_supported_options());
    assert_eq!(result, Err(Rejection::FailedToAddTaskToQueue));
    assert_eq!(world.ledger_total(7), 5);
    assert!(!world.cache.contains_key(&job_cache_key(&job_id)));
    // The row stays for the operator to see.
    assert_eq!(world.jobs[&job_id].status, GenerationStatus::Waiting);
    assert!(world.queue.is_empty());
}

#[test]
fn failed_insert_refunds() {
    let mut world = World::new(1_000);
    world.increment(7, 5, 10_000).unwrap();
    world.faults.insert_job = true;
    let (job_id, result) = world.submit(7, three_supported_options());
    assert_eq!(result, Err(Rejection::InternalServiceError));
    assert_eq!(world.ledger_total(7), 5);
    assert!(!world.jobs.contains_key(&job_id));
    assert!(world.queue.is_empty());
}

#[test]
fn read_after_grant_and_spend_ignores_what_was_cached() {
    let mut world = World::new(1_000);
    world.increment(7, 5, 10_000).unwrap();
    assert_eq!(world.read_balance(7, false), Ok(Balance { total: 5, earliest_expiry: 11_000 }));
    // The snapshot is cached for the time until the expiry.
    assert_eq!(world.cache[&credits_key(7)], ("5".to_string(), 10_000));
    assert_eq!(world.cache[&expire_key(7)], ("11000".to_string(), 10_000));
    world.increment(7, 4, 500).unwrap();
    assert!(!world.cache.contains_key(&credits_key(7)));
    assert_eq!(world.read_balance(7, false), Ok(Balance { total: 9, earliest_expiry: 1_500 }));
    assert_eq!(world.decrement(7, 6), Ok(Balance { total: 3, earliest_expiry: 11_000 }));
    assert_eq!(world.read_balance(7, false), Ok(Balance { total: 3, earliest_expiry: 11_000 }));
}

#[test]
fn stale_cache_is_served_until_invalidated() {
    let mut world = World::new(1_000);
    world.increment(7, 5, 10_000).unwrap();
    assert_eq!(world.read_balance(7, false).unwrap().total, 5);
    // A grant that does not go through the service leaves the cache alone.
    world.insert_grant(7, 2, 20_000);
    assert_eq!(world.read_balance(7, false).unwrap().total, 5);
    world.invalidate_balance(7);
    assert_eq!(world.read_balance(7, false).unwrap().total, 7);
}

#[test]
fn run_of_grants_and_spends_keeps_the_books() {
    let mut world = World::new(1_000);
    let mut expected: i64 = 0;
    let ops: [(bool, i32); 9] = [
        (true, 4),
        (false, 1),
        (true, 10),
        (false, 20),
        (false, 13),
        (true, 3),
        (false, 3),
        (false, 1),
        (true, 7),
    ];
    for (i, (grant, amount)) in ops.iter().enumerate() {
        if *grant {
            world.increment(7, *amount, 5_000 - 100 * i as i64).unwrap();
            expected += *amount as i64;
        } else {
            match world.decrement(7, *amount) {
                Ok(balance) => {
                    expected -= *amount as i64;
                    assert_eq!(balance.total, expected);
                }
                Err(e) => {
                    assert_eq!(e, IncrementTotalCreditsError::NotEnoughCredits);
                    assert!((*amount as i64) > expected);
                }
            }
        }
        assert_eq!(world.ledger_total(7), expected);
        assert!(world.grants.iter().all(|g| g.amount > 0));
    }
    assert_eq!(expected, 7);
}

#[test]
fn spends_beyond_the_balance_exhaust_it_and_fail_the_rest() {
    let mut world = World::new(1_000);
    world.increment(7, 10, 5_000).unwrap();
    let mut successes = 0;
    let mut failures = 0;
    for _ in 0..7 {
        match world.decrement(7, 2) {
            Ok(_) => successes += 1,
            Err(e) => {
                assert_eq!(e, IncrementTotalCreditsError::NotEnoughCredits);
                failures += 1;
            }
        }
    }
    assert_eq!((successes, failures), (5, 2));
    assert_eq!(world.ledger_total(7), 0);
}

#[test]
fn spend_that_loses_the_race_is_bad_data() {
    let mut world = World::new(1_000);
    world.increment(7, 5, 5_000).unwrap();
    // The quick check reads five credits; before the grants are loaded,
    // another spend has taken them.
    let mut run = decrement_total_credits(7, 4, true, true);
    run = run.advance(DecrementOutcome::Balance(world.read_balance(7, true)));
    assert_eq!(run.step, DecrementStep::LoadGrants { new_total: 1 });
    world.decrement(7, 3).unwrap();
    run = run.advance(DecrementOutcome::Grants(world.live_grants(7)));
    assert_eq!(run.step, DecrementStep::Rollback);
    assert!(run.controls.is_empty());
    run = run.advance(DecrementOutcome::Done);
    assert_eq!(run.step, DecrementStep::Finish(Err(IncrementTotalCreditsError::BadData)));
    assert_eq!(world.ledger_total(7), 2);
}

#[test]
fn failed_invalidation_is_reported_after_the_spend_is_made() {
    let mut world = World::new(1_000);
    world.increment(7, 5, 5_000).unwrap();
    world.faults.cache_invalidate = true;
    assert_eq!(world.decrement(7, 2), Err(IncrementTotalCreditsError::RedisOperationFailure));
    assert_eq!(world.ledger_total(7), 3);
    assert_eq!(world.increment(7, 1, 5_000), Err(IncrementTotalCreditsError::RedisOperationFailure));
    assert_eq!(world.ledger_total(7), 4);
}

#[test]
fn deleted_while_waiting_is_refunded_by_the_worker() {
    let mut world = World::new(1_000);
    world.increment(7, 5, 10_000).unwrap();
    let (job_id, _) = world.submit(7, three_supported_options());
    world.jobs.get_mut(&job_id).unwrap().status = GenerationStatus::Deleting;
    world.deliver(0);
    assert!(world.queue.is_empty());
    assert!(!world.jobs.contains_key(&job_id));
    assert_eq!(world.generator_runs, 0);
    assert_eq!(world.read_balance(7, false).unwrap().total, 5);
    assert_eq!(world.jobs.len(), 0);
    assert_eq!(world.jobs.get(&job_id).map(|r| r.options.clone()), None);
}
