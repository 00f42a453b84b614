//! The exploration engine: brute-force Monte Carlo mapping of the genome
//! space, and a generational genetic algorithm with tournament selection
//! and elitism.
//!
//! Both modes are pinned to a specification-level model of the whole run as
//! a function of the configuration and the initial stream state, so a run
//! is reproducible by construction: the determinism laws below are direct
//! consequences.  The genetic loop also carries the elitism law: champion
//! scores never decrease from one generation to the next.

use vstd::prelude::*;

verus! {

use crate::rng::{RandomStream, spec_stream_next_state, spec_stream_output};
use crate::genome::{Genome, spec_mutate, spec_random_genome, random_genome};
use crate::fitness::{FitnessResult, spec_fitness, calculate_fitness};

/// Mapping mode logs a genome only when its score strictly exceeds this
/// threshold (micro units).
pub const FITNESS_THRESHOLD_TO_LOG: u64 = 0;
/// Mapping mode keeps one of every `SAMPLING_FACTOR` viable genomes.
pub const SAMPLING_FACTOR: u64 = 100;
/// Number of genomes in every generation of evolution mode.
pub const POPULATION_SIZE: usize = 100;
/// Per-gene mutation probability, `0.10` in micro units.
pub const MUTATION_RATE: u64 = 100_000;
/// Probability that a mutation is a hypermutation jump, `0.05` in micro
/// units.
pub const HYPERMUTATION_CHANCE: u64 = 50_000;
/// Number of contenders drawn (with replacement) in one tournament.
pub const TOURNAMENT_SIZE: usize = 3;

/// One logged sample of mapping mode: the fitness result and the sampled
/// quark-sector gene values.
#[derive(Clone, Copy, PartialEq, Eq, Structural, Debug)]
pub struct SampleRecord {
    /// Viability score in micro units.
    pub score: u64,
    /// Complexity tier reached.
    pub tier: u8,
    /// Up-quark analogue mass of the sampled genome.
    pub mass_up_quark: u64,
    /// Down-quark analogue mass of the sampled genome.
    pub mass_down_quark: u64,
    /// Strange-quark analogue mass of the sampled genome.
    pub mass_strange_quark: u64,
    /// Charm-quark analogue mass of the sampled genome.
    pub mass_charm_quark: u64,
    /// Bottom-quark analogue mass of the sampled genome.
    pub mass_bottom_quark: u64,
    /// Top-quark analogue mass of the sampled genome.
    pub mass_top_quark: u64,
}

/// The outcome of a mapping run: the decimated sample log and the count of
/// viable genomes seen.
#[derive(PartialEq, Eq, Debug)]
pub struct MappingReport {
    /// One record per `SAMPLING_FACTOR` viable genomes, in order.
    pub records: Vec<SampleRecord>,
    /// How many sampled genomes scored above the logging threshold.
    pub viable_count: u64,
}

/// One generation's report line in evolution mode.
#[derive(Clone, Copy, PartialEq, Eq, Structural, Debug)]
pub struct GenerationRecord {
    /// The generation index, starting at zero.
    pub generation: u64,
    /// The champion's viability score in micro units.
    pub champion_score: u64,
    /// The champion's complexity tier.
    pub champion_tier: u8,
}

/// The outcome of an evolution run: the per-generation champion log, the
/// final population, and whether the run stopped early on extinction.
#[derive(PartialEq, Eq, Debug)]
pub struct EvolutionReport {
    /// One record per evaluated generation, in order.
    pub history: Vec<GenerationRecord>,
    /// The population left when the run stopped.
    pub population: Vec<Genome>,
    /// True when the run stopped early because the whole population scored
    /// zero.
    pub extinct: bool,
}

/// The sample record for a genome and its fitness result.
pub open spec fn spec_sample_record(g: Genome, fr: FitnessResult) -> SampleRecord {
    SampleRecord {
        score: fr.score,
        tier: fr.tier,
        mass_up_quark: g.mass_up_quark,
        mass_down_quark: g.mass_down_quark,
        mass_strange_quark: g.mass_strange_quark,
        mass_charm_quark: g.mass_charm_quark,
        mass_bottom_quark: g.mass_bottom_quark,
        mass_top_quark: g.mass_top_quark,
    }
}

/// The state of a mapping run after `n` trials from stream state `s`: the
/// logged records, the viable count, and the stream state.  Each trial
/// draws one genome, evaluates it, counts it when it beats the logging
/// threshold, and logs every `SAMPLING_FACTOR`-th viable one.
pub open spec fn spec_map_run(n: nat, s: u64) -> (Seq<SampleRecord>, int, u64)
    decreases n,
{
    if n == 0 {
        (Seq::empty(), 0, s)
    } else {
        let (recs, viable, st) = spec_map_run((n - 1) as nat, s);
        let (g, s2) = spec_random_genome(st);
        let fr = spec_fitness(g);
        if fr.score > FITNESS_THRESHOLD_TO_LOG {
            let v2 = viable + 1;
            if v2 % (SAMPLING_FACTOR as int) == 0 {
                (recs.push(spec_sample_record(g, fr)), v2, s2)
            } else {
                (recs, v2, s2)
            }
        } else {
            (recs, viable, s2)
        }
    }
}

/// Runs mapping mode: `num_universes` independent uniform trials, O(1)
/// state per trial beyond the decimated log.
pub fn run_mapping(num_universes: u64, rng: &mut RandomStream) -> (rep: MappingReport)
    ensures
        rep.records@ == spec_map_run(num_universes as nat, old(rng).state).0,
        rep.viable_count == spec_map_run(num_universes as nat, old(rng).state).1,
        final(rng).state == spec_map_run(num_universes as nat, old(rng).state).2,
        rep.viable_count <= num_universes,
{
    let ghost s0: u64 = rng.state;
    let mut records: Vec<SampleRecord> = Vec::new();
    let mut viable: u64 = 0;
    for i in 0..num_universes
        invariant
            viable <= i,
            records@ == spec_map_run(i as nat, s0).0,
            viable == spec_map_run(i as nat, s0).1,
            rng.state == spec_map_run(i as nat, s0).2,
    {
        let g: Genome = random_genome(rng);
        let fr: FitnessResult = calculate_fitness(&g);
        if fr.score > FITNESS_THRESHOLD_TO_LOG {
            viable = viable + 1;
            if viable % SAMPLING_FACTOR == 0 {
                records.push(
                    SampleRecord {
                        score: fr.score,
                        tier: fr.tier,
                        mass_up_quark: g.mass_up_quark,
                        mass_down_quark: g.mass_down_quark,
                        mass_strange_quark: g.mass_strange_quark,
                        mass_charm_quark: g.mass_charm_quark,
                        mass_bottom_quark: g.mass_bottom_quark,
                        mass_top_quark: g.mass_top_quark,
                    },
                );
            }
        }
    }
    MappingReport { records, viable_count: viable }
}

/// Determinism of mapping mode: runs with the same trial count and equal
/// stream seeds produce identical logs, counts and final states.
pub proof fn lemma_mapping_deterministic(n: nat, s1: u64, s2: u64)
    requires
        s1 == s2,
    ensures
        spec_map_run(n, s1) == spec_map_run(n, s2),
{
}

/// The seed population: `k` successive first-generation mutants of the
/// seed genome, threading the stream state through.
pub open spec fn spec_seed_population(adam: Genome, k: nat, s: u64) -> (Seq<Genome>, u64)
    decreases k,
{
    if k == 0 {
        (Seq::empty(), s)
    } else {
        let (pop, st) = spec_seed_population(adam, (k - 1) as nat, s);
        let (child, s2) = spec_mutate(adam, MUTATION_RATE, HYPERMUTATION_CHANCE, st);
        (pop.push(child), s2)
    }
}

/// Builds generation zero: `POPULATION_SIZE` independent mutants of the
/// seed genome, for immediate diversity.
pub fn seed_population(adam: &Genome, rng: &mut RandomStream) -> (pop: Vec<Genome>)
    requires
        adam.wf(),
    ensures
        pop@ == spec_seed_population(*adam, POPULATION_SIZE as nat, old(rng).state).0,
        final(rng).state == spec_seed_population(*adam, POPULATION_SIZE as nat, old(rng).state).1,
        pop@.len() == POPULATION_SIZE,
        forall|i: int| 0 <= i < pop@.len() ==> #[trigger] pop@[i].wf(),
{
    let ghost s0: u64 = rng.state;
    let mut pop: Vec<Genome> = Vec::new();
    for i in 0..POPULATION_SIZE
        invariant
            adam.wf(),
            pop@.len() == i,
            pop@ == spec_seed_population(*adam, i as nat, s0).0,
            rng.state == spec_seed_population(*adam, i as nat, s0).1,
            forall|j: int| 0 <= j < pop@.len() ==> #[trigger] pop@[j].wf(),
    {
        let child: Genome = adam.mutate(rng, MUTATION_RATE, HYPERMUTATION_CHANCE);
        pop.push(child);
    }
    pop
}

/// The champion of a population: the index of its highest-scoring member,
/// the earliest one on ties (strictly-greater comparisons only).
pub open spec fn spec_champion_idx(pop: Seq<Genome>) -> int
    decreases pop.len(),
{
    if pop.len() <= 1 {
        0
    } else {
        let r = spec_champion_idx(pop.drop_last());
        if spec_fitness(pop.last()).score > spec_fitness(pop[r]).score {
            pop.len() - 1
        } else {
            r
        }
    }
}

/// The champion index is in range and its score is the maximum.
pub proof fn lemma_champion_idx(pop: Seq<Genome>)
    requires
        pop.len() > 0,
    ensures
        0 <= spec_champion_idx(pop) < pop.len(),
        forall|i: int|
            0 <= i < pop.len() ==> spec_fitness(pop[spec_champion_idx(pop)]).score >= spec_fitness(
                #[trigger] pop[i],
            ).score,
    decreases pop.len(),
{
    if pop.len() > 1 {
        lemma_champion_idx(pop.drop_last());
        let r = spec_champion_idx(pop.drop_last());
        assert forall|i: int| 0 <= i < pop.len() implies spec_fitness(
            pop[spec_champion_idx(pop)],
        ).score >= spec_fitness(#[trigger] pop[i]).score by {
            if i < pop.len() - 1 {
                assert(pop.drop_last()[i] == pop[i]);
                assert(spec_fitness(pop.drop_last()[r]).score >= spec_fitness(
                    pop.drop_last()[i],
                ).score);
            }
            assert(pop.drop_last()[r] == pop[r]);
        }
    }
}

/// Finds the champion of an evaluated population.
pub fn champion_index(pop: &Vec<Genome>) -> (c: usize)
    requires
        pop@.len() >= 1,
        forall|i: int| 0 <= i < pop@.len() ==> #[trigger] pop@[i].wf(),
    ensures
        c == spec_champion_idx(pop@),
        c < pop@.len(),
{
    let g0: Genome = pop[0];
    let mut best: usize = 0;
    let mut best_score: u64 = calculate_fitness(&g0).score;
    let n: usize = pop.len();
    for i in 1..n
        invariant
            n == pop@.len(),
            best < i <= n,
            forall|j: int| 0 <= j < pop@.len() ==> #[trigger] pop@[j].wf(),
            best == spec_champion_idx(pop@.take(i as int)),
            best_score == spec_fitness(pop@[best as int]).score,
    {
        proof {
            assert(pop@.take(i as int + 1).drop_last() =~= pop@.take(i as int));
            assert(pop@.take(i as int + 1).last() == pop@[i as int]);
        }
        let gi: Genome = pop[i];
        let sc: u64 = calculate_fitness(&gi).score;
        if sc > best_score {
            best = i;
            best_score = sc;
        }
    }
    proof {
        assert(pop@.take(pop@.len() as int) =~= pop@);
    }
    best
}

/// One tournament over the population from stream state `s`: three
/// contenders drawn uniformly with replacement, the winner the earliest
/// strictly-highest scorer among them in draw order.  The pair is the
/// winner's index and the stream state after the three draws.
#[verifier::opaque]
pub open spec fn spec_tournament(pop: Seq<Genome>, s: u64) -> (int, u64) {
    let n = pop.len() as u64;
    let i1 = spec_stream_output(s) % n;
    let s1 = spec_stream_next_state(s);
    let i2 = spec_stream_output(s1) % n;
    let s2 = spec_stream_next_state(s1);
    let i3 = spec_stream_output(s2) % n;
    let s3 = spec_stream_next_state(s2);
    let w2 = if spec_fitness(pop[i2 as int]).score > spec_fitness(pop[i1 as int]).score {
        i2
    } else {
        i1
    };
    let w3 = if spec_fitness(pop[i3 as int]).score > spec_fitness(pop[w2 as int]).score {
        i3
    } else {
        w2
    };
    (w3 as int, s3)
}

/// Selects a breeding parent by tournament, as `spec_tournament`
/// prescribes.
pub fn tournament_select(pop: &Vec<Genome>, rng: &mut RandomStream) -> (w: usize)
    requires
        1 <= pop@.len() <= 0xFFFF_FFFF,
        forall|i: int| 0 <= i < pop@.len() ==> #[trigger] pop@[i].wf(),
    ensures
        w == spec_tournament(pop@, old(rng).state).0,
        final(rng).state == spec_tournament(pop@, old(rng).state).1,
        w < pop@.len(),
{
    proof {
        reveal(spec_tournament);
    }
    let n: u64 = pop.len() as u64;
    let i1: usize = rng.gen_range(0, n) as usize;
    let i2: usize = rng.gen_range(0, n) as usize;
    let i3: usize = rng.gen_range(0, n) as usize;
    let g1: Genome = pop[i1];
    let g2: Genome = pop[i2];
    let g3: Genome = pop[i3];
    let s1: u64 = calculate_fitness(&g1).score;
    let s2: u64 = calculate_fitness(&g2).score;
    let s3: u64 = calculate_fitness(&g3).score;
    let (w2, w2s): (usize, u64) = if s2 > s1 { (i2, s2) } else { (i1, s1) };
    if s3 > w2s {
        i3
    } else {
        w2
    }
}

/// Breeds `k` children onto the accumulated next generation: each child is
/// the mutation of a tournament winner, threading the stream state.
pub open spec fn spec_breed(pop: Seq<Genome>, k: nat, s: u64, acc: Seq<Genome>) -> (
    Seq<Genome>,
    u64,
)
    decreases k,
{
    if k == 0 {
        (acc, s)
    } else {
        let (w, s1) = spec_tournament(pop, s);
        let (child, s2) = spec_mutate(pop[w], MUTATION_RATE, HYPERMUTATION_CHANCE, s1);
        spec_breed(pop, (k - 1) as nat, s2, acc.push(child))
    }
}

/// The next generation: the champion carried over unmutated (elitism),
/// then `POPULATION_SIZE - 1` tournament children.
pub open spec fn spec_next_population(pop: Seq<Genome>, s: u64) -> (Seq<Genome>, u64) {
    let champ = pop[spec_champion_idx(pop)];
    spec_breed(pop, (POPULATION_SIZE - 1) as nat, s, seq![champ])
}

/// Breeding only appends: the accumulated prefix survives, and the length
/// grows by exactly `k`.
#[verifier::rlimit(50)]
pub proof fn lemma_breed_prefix(pop: Seq<Genome>, k: nat, s: u64, acc: Seq<Genome>)
    ensures
        spec_breed(pop, k, s, acc).0.len() == acc.len() + k,
        forall|i: int| 0 <= i < acc.len() ==> spec_breed(pop, k, s, acc).0[i] == acc[i],
    decreases k,
{
    if k != 0 {
        let (w, s1) = spec_tournament(pop, s);
        let (child, s2) = spec_mutate(pop[w], MUTATION_RATE, HYPERMUTATION_CHANCE, s1);
        lemma_breed_prefix(pop, (k - 1) as nat, s2, acc.push(child));
        assert forall|i: int| 0 <= i < acc.len() implies spec_breed(pop, k, s, acc).0[i]
            == acc[i] by {
            assert(spec_breed(pop, k, s, acc) == spec_breed(
                pop,
                (k - 1) as nat,
                s2,
                acc.push(child),
            ));
            assert(spec_breed(pop, (k - 1) as nat, s2, acc.push(child)).0[i] == acc.push(child)[i]);
            assert(acc.push(child)[i] == acc[i]);
        }
    }
}

/// Builds the next generation, as `spec_next_population` prescribes.
pub fn next_generation(pop: &Vec<Genome>, rng: &mut RandomStream) -> (next: Vec<Genome>)
    requires
        pop@.len() == POPULATION_SIZE,
        forall|i: int| 0 <= i < pop@.len() ==> #[trigger] pop@[i].wf(),
    ensures
        next@ == spec_next_population(pop@, old(rng).state).0,
        final(rng).state == spec_next_population(pop@, old(rng).state).1,
        next@.len() == POPULATION_SIZE,
        forall|i: int| 0 <= i < next@.len() ==> #[trigger] next@[i].wf(),
        next@[0] == pop@[spec_champion_idx(pop@)],
{
    let ghost s0: u64 = rng.state;
    let champ_idx: usize = champion_index(pop);
    let champ: Genome = pop[champ_idx];
    let mut next: Vec<Genome> = Vec::new();
    next.push(champ);
    proof {
        assert(next@ =~= seq![champ]);
    }
    let mut bred: usize = 0;
    while bred < POPULATION_SIZE - 1
        invariant
            pop@.len() == POPULATION_SIZE,
            forall|i: int| 0 <= i < pop@.len() ==> #[trigger] pop@[i].wf(),
            bred <= POPULATION_SIZE - 1,
            next@.len() == 1 + bred,
            next@[0] == champ,
            champ == pop@[spec_champion_idx(pop@)],
            champ.wf(),
            forall|i: int| 0 <= i < next@.len() ==> #[trigger] next@[i].wf(),
            spec_breed(pop@, (POPULATION_SIZE - 1) as nat, s0, seq![champ]) == spec_breed(
                pop@,
                (POPULATION_SIZE - 1 - bred) as nat,
                rng.state,
                next@,
            ),
        decreases POPULATION_SIZE - bred,
    {
        let w: usize = tournament_select(pop, rng);
        let parent: Genome = pop[w];
        let child: Genome = parent.mutate(rng, MUTATION_RATE, HYPERMUTATION_CHANCE);
        next.push(child);
        bred = bred + 1;
    }
    next
}

/// The record reported for a population standing at generation `g`.
pub open spec fn spec_generation_record(pop: Seq<Genome>, g: u64) -> GenerationRecord {
    let c = spec_champion_idx(pop);
    GenerationRecord {
        generation: g,
        champion_score: spec_fitness(pop[c]).score,
        champion_tier: spec_fitness(pop[c]).tier,
    }
}

/// The generational loop from a population standing at generation `g` with
/// `remaining` selection steps left: every evaluated generation is
/// recorded; a champion score of zero is total extinction and stops the
/// run early.  The tuple is the history, the final population, the
/// extinction flag, and the stream state.
pub open spec fn spec_evolution_loop(
    pop: Seq<Genome>,
    g: u64,
    remaining: u64,
    s: u64,
    hist: Seq<GenerationRecord>,
) -> (Seq<GenerationRecord>, Seq<Genome>, bool, u64)
    decreases remaining,
{
    let rec = spec_generation_record(pop, g);
    let hist2 = hist.push(rec);
    if rec.champion_score == 0 {
        (hist2, pop, true, s)
    } else if remaining == 0 {
        (hist2, pop, false, s)
    } else {
        let (pop2, s2) = spec_next_population(pop, s);
        spec_evolution_loop(pop2, (g + 1) as u64, (remaining - 1) as u64, s2, hist2)
    }
}

/// A whole evolution run from a seed genome: seed generation zero with
/// `POPULATION_SIZE` mutants of the seed, then run the generational loop
/// for at most `generations` selection steps.
pub open spec fn spec_evolution_run(adam: Genome, generations: u64, s: u64) -> (
    Seq<GenerationRecord>,
    Seq<Genome>,
    bool,
    u64,
) {
    let (pop0, s1) = spec_seed_population(adam, POPULATION_SIZE as nat, s);
    spec_evolution_loop(pop0, 0, generations, s1, Seq::empty())
}

/// Determinism of evolution mode: runs from equal seed genomes, generation
/// counts and stream seeds coincide entirely.
pub proof fn lemma_evolution_deterministic(
    adam1: Genome,
    adam2: Genome,
    generations: u64,
    s1: u64,
    s2: u64,
)
    requires
        adam1 == adam2,
        s1 == s2,
    ensures
        spec_evolution_run(adam1, generations, s1) == spec_evolution_run(adam2, generations, s2),
{
}

/// Elitism in law form: the champion genome reappears unmutated at the
/// head of the next population, so the next generation's champion scores
/// at least as much as the current one's.
#[verifier::rlimit(50)]
pub proof fn lemma_elitism_monotone(pop: Seq<Genome>, s: u64)
    requires
        pop.len() == POPULATION_SIZE,
    ensures
        spec_next_population(pop, s).0.len() == POPULATION_SIZE,
        spec_next_population(pop, s).0[0] == pop[spec_champion_idx(pop)],
        spec_fitness(
            spec_next_population(pop, s).0[spec_champion_idx(spec_next_population(pop, s).0)],
        ).score >= spec_fitness(pop[spec_champion_idx(pop)]).score,
{
    let champ = pop[spec_champion_idx(pop)];
    lemma_breed_prefix(pop, (POPULATION_SIZE - 1) as nat, s, seq![champ]);
    let pop2 = spec_next_population(pop, s).0;
    assert(seq![champ][0] == champ);
    assert(spec_breed(pop, (POPULATION_SIZE - 1) as nat, s, seq![champ]).0[0] == seq![champ][0]);
    lemma_champion_idx(pop2);
}

/// Runs evolution mode: seeds generation zero from the seed genome, then
/// evaluates, records and breeds for at most `generations` selection
/// steps, stopping early on extinction.  The history is pinned to the
/// run model; champion scores never decrease (elitism); zero generations
/// evaluate and report generation zero without any selection.
#[verifier::rlimit(50)]
pub fn run_evolution(adam: &Genome, generations: u64, rng: &mut RandomStream) -> (rep: EvolutionReport)
    requires
        adam.wf(),
    ensures
        rep.history@ == spec_evolution_run(*adam, generations, old(rng).state).0,
        rep.population@ == spec_evolution_run(*adam, generations, old(rng).state).1,
        rep.extinct == spec_evolution_run(*adam, generations, old(rng).state).2,
        final(rng).state == spec_evolution_run(*adam, generations, old(rng).state).3,
        rep.population@.len() == POPULATION_SIZE,
        1 <= rep.history@.len() <= generations + 1,
        forall|i: int|
            0 <= i < rep.history@.len() ==> (#[trigger] rep.history@[i]).generation == i,
        forall|i: int|
            1 <= i < rep.history@.len() ==> (#[trigger] rep.history@[i]).champion_score
                >= rep.history@[i - 1].champion_score,
        generations == 0 ==> rep.population@ == spec_seed_population(
            *adam,
            POPULATION_SIZE as nat,
            old(rng).state,
        ).0,
{
    let ghost s0: u64 = rng.state;
    let mut population: Vec<Genome> = seed_population(adam, rng);
    let ghost pop0: Seq<Genome> = population@;
    let ghost s1: u64 = rng.state;
    let mut history: Vec<GenerationRecord> = Vec::new();
    let mut extinct: bool = false;
    let mut g: u64 = 0;
    loop
        invariant_except_break
            adam.wf(),
            !extinct,
            g <= generations,
            population@.len() == POPULATION_SIZE,
            forall|i: int| 0 <= i < population@.len() ==> #[trigger] population@[i].wf(),
            history@.len() == g,
            forall|i: int| 0 <= i < history@.len() ==> (#[trigger] history@[i]).generation == i,
            forall|i: int|
                1 <= i < history@.len() ==> (#[trigger] history@[i]).champion_score
                    >= history@[i - 1].champion_score,
            history@.len() > 0 ==> spec_fitness(
                population@[spec_champion_idx(population@)],
            ).score >= history@.last().champion_score,
            history@.len() > 0 ==> history@.last().champion_score > 0,
            spec_evolution_loop(pop0, 0, generations, s1, Seq::empty()) == spec_evolution_loop(
                population@,
                g,
                (generations - g) as u64,
                rng.state,
                history@,
            ),
        ensures
            population@.len() == POPULATION_SIZE,
            history@ == spec_evolution_loop(pop0, 0, generations, s1, Seq::empty()).0,
            population@ == spec_evolution_loop(pop0, 0, generations, s1, Seq::empty()).1,
            extinct == spec_evolution_loop(pop0, 0, generations, s1, Seq::empty()).2,
            rng.state == spec_evolution_loop(pop0, 0, generations, s1, Seq::empty()).3,
            1 <= history@.len() <= generations + 1,
            forall|i: int| 0 <= i < history@.len() ==> (#[trigger] history@[i]).generation == i,
            forall|i: int|
                1 <= i < history@.len() ==> (#[trigger] history@[i]).champion_score
                    >= history@[i - 1].champion_score,
            generations == 0 ==> population@ == pop0,
        decreases generations - g,
    {
        proof {
            lemma_champion_idx(population@);
        }
        let ci: usize = champion_index(&population);
        let champ: Genome = population[ci];
        let fr: FitnessResult = calculate_fitness(&champ);
        let ghost prev_hist: Seq<GenerationRecord> = history@;
        proof {
            assert(GenerationRecord { generation: g, champion_score: fr.score, champion_tier: fr.tier }
                == spec_generation_record(population@, g));
        }
        history.push(
            GenerationRecord { generation: g, champion_score: fr.score, champion_tier: fr.tier },
        );
        if fr.score == 0 {
            extinct = true;
            proof {
                assert(spec_evolution_loop(population@, g, (generations - g) as u64, rng.state, prev_hist)
                    == (history@, population@, true, rng.state));
            }
            break;
        }
        if g == generations {
            proof {
                assert(spec_evolution_loop(population@, g, (generations - g) as u64, rng.state, prev_hist)
                    == (history@, population@, false, rng.state));
            }
            break;
        }
        proof {
            lemma_elitism_monotone(population@, rng.state);
        }
        population = next_generation(&population, rng);
        g = g + 1;
    }
    EvolutionReport { history, population, extinct }
}

} // verus!
