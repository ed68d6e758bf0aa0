//! Fila de jobs de render e geração: enfileirar, progresso, cancelamento e
//! recuperação de jobs órfãos depois de uma queda.

use vstd::prelude::*;

verus! {

/// Estado de um job.
#[derive(Debug, Clone, Copy, PartialEq, Eq, Structural)]
pub enum JobStatus {
    Pending,
    Running,
    Paused,
    Completed,
    Failed,
    Cancelled,
}

/// Um job da fila.
#[derive(Debug)]
pub struct JobTask {
    pub id: String,
    pub name: String,
    pub kind: String,
    pub progress: u8,
    pub status: JobStatus,
    pub error_msg: Option<String>,
    pub heartbeat_utc: String,
}

impl JobTask {
    /// Job novo: pendente, sem progresso e sem erro.
    pub fn new(id: &str, name: &str, kind: &str) -> (r: Self)
        ensures
            r.id@ == id@,
            r.name@ == name@,
            r.kind@ == kind@,
            r.progress == 0,
            r.status == JobStatus::Pending,
            r.error_msg is None,
            r.heartbeat_utc@ == "2026-07-30T15:26:00Z"@,
    {
        JobTask {
            id: id.to_owned(),
            name: name.to_owned(),
            kind: kind.to_owned(),
            progress: 0,
            status: JobStatus::Pending,
            error_msg: None,
            heartbeat_utc: "2026-07-30T15:26:00Z".to_owned(),
        }
    }

    /// Cópia campo a campo.
    pub fn copia(&self) -> (r: Self)
        ensures
            r == *self,
    {
        JobTask {
            id: self.id.clone(),
            name: self.name.clone(),
            kind: self.kind.clone(),
            progress: self.progress,
            status: self.status,
            error_msg: match &self.error_msg {
                Some(e) => Some(e.clone()),
                None => None,
            },
            heartbeat_utc: self.heartbeat_utc.clone(),
        }
    }
}

/// O job depois de receber o progresso `p`: limitado a 100, concluído em 100 e em
/// execução abaixo disso.
pub open spec fn com_progresso(t: JobTask, p: u8) -> JobTask {
    let q: u8 = if p < 100 { p } else { 100 };
    JobTask { progress: q, status: if q == 100 { JobStatus::Completed } else { JobStatus::Running }, ..t }
}

/// Registrar progresso limita o valor a 100 e marca o job como concluído
/// exatamente quando chega a 100; abaixo disso ele fica em execução com o
/// progresso dado. Id, nome, tipo, erro e batimento não mudam.
pub proof fn lei_progresso(t: JobTask, p: u8)
    ensures
        p <= 100 ==> com_progresso(t, p).progress == p,
        p > 100 ==> com_progresso(t, p).progress == 100,
        com_progresso(t, p).status == JobStatus::Completed <==> p >= 100,
        com_progresso(t, p).status == JobStatus::Running <==> p < 100,
        com_progresso(t, p).id == t.id,
        com_progresso(t, p).name == t.name,
        com_progresso(t, p).kind == t.kind,
        com_progresso(t, p).error_msg == t.error_msg,
        com_progresso(t, p).heartbeat_utc == t.heartbeat_utc,
{
}

/// O job cancelado.
pub open spec fn cancelado(t: JobTask) -> JobTask {
    JobTask { status: JobStatus::Cancelled, ..t }
}

/// O job depois da recuperação de órfãos: o que estava em execução volta a pendente.
pub open spec fn recuperado(t: JobTask) -> JobTask {
    if t.status == JobStatus::Running { JobTask { status: JobStatus::Pending, ..t } } else { t }
}

/// Cancelar marca o job como cancelado sem mexer no resto; a recuperação de
/// órfãos devolve a pendente só o job que estava em execução, com o mesmo
/// progresso, e deixa os demais como estão.
pub proof fn lei_cancelar_e_recuperar(t: JobTask)
    ensures
        cancelado(t).status == JobStatus::Cancelled,
        cancelado(t).id == t.id && cancelado(t).name == t.name && cancelado(t).kind == t.kind,
        cancelado(t).progress == t.progress && cancelado(t).error_msg == t.error_msg,
        cancelado(t).heartbeat_utc == t.heartbeat_utc,
        t.status == JobStatus::Running ==> recuperado(t).status == JobStatus::Pending
            && recuperado(t).progress == t.progress && recuperado(t).id == t.id,
        t.status != JobStatus::Running ==> recuperado(t) == t,
        recuperado(t).status != JobStatus::Running,
{
}


/// Nenhum id se repete.
pub open spec fn ids_unicos(s: Seq<JobTask>) -> bool {
    forall|i: int, j: int| 0 <= i < s.len() && 0 <= j < s.len() && i != j ==> s[i].id@ != s[j].id@
}

/// Jobs indexados pelo id.
pub open spec fn mapa(s: Seq<JobTask>) -> Map<Seq<char>, JobTask>
    decreases s.len(),
{
    if s.len() == 0 {
        Map::empty()
    } else {
        mapa(s.drop_last()).insert(s.last().id@, s.last())
    }
}

/// Quantos jobs estão em execução.
pub open spec fn em_execucao(s: Seq<JobTask>) -> nat
    decreases s.len(),
{
    if s.len() == 0 {
        0
    } else {
        em_execucao(s.drop_last()) + if s.last().status == JobStatus::Running { 1nat } else { 0nat }
    }
}

proof fn lema_mapa(s: Seq<JobTask>)
    requires
        ids_unicos(s),
    ensures
        forall|i: int| 0 <= i < s.len() ==> #[trigger] mapa(s).dom().contains(s[i].id@) && mapa(s)[s[i].id@] == s[i],
        forall|k: Seq<char>| #[trigger] mapa(s).dom().contains(k) ==> exists|i: int| 0 <= i < s.len() && s[i].id@ == k,
    decreases s.len(),
{
    if s.len() > 0 {
        let d = s.drop_last();
        assert(ids_unicos(d));
        lema_mapa(d);
        assert forall|i: int| 0 <= i < s.len() implies #[trigger] mapa(s).dom().contains(s[i].id@) && mapa(s)[s[i].id@] == s[i] by {
            if i < s.len() - 1 {
                assert(d[i] == s[i]);
                assert(mapa(d).dom().contains(d[i].id@));
                assert(s[i].id@ != s[s.len() - 1].id@);
            }
        }
        assert forall|k: Seq<char>| #[trigger] mapa(s).dom().contains(k) implies exists|i: int| 0 <= i < s.len() && s[i].id@ == k by {
            if k != s.last().id@ {
                assert(mapa(d).dom().contains(k));
                let i = choose|i: int| 0 <= i < d.len() && d[i].id@ == k;
                assert(s[i] == d[i]);
            } else {
                assert(s[s.len() - 1].id@ == k);
            }
        }
    }
}

proof fn lema_mapa_update(s: Seq<JobTask>, i: int, t: JobTask)
    requires
        ids_unicos(s),
        0 <= i < s.len(),
        s[i].id@ == t.id@,
    ensures
        ids_unicos(s.update(i, t)),
        mapa(s.update(i, t)) == mapa(s).insert(t.id@, t),
    decreases s.len(),
{
    let u = s.update(i, t);
    assert(ids_unicos(u)) by {
        assert forall|a: int, b: int| 0 <= a < u.len() && 0 <= b < u.len() && a != b implies u[a].id@ != u[b].id@ by {
            assert(u[a].id@ == s[a].id@ && u[b].id@ == s[b].id@);
        }
    }
    let d = s.drop_last();
    if i == s.len() - 1 {
        assert(u.drop_last() =~= d);
        assert(mapa(u) =~= mapa(s).insert(t.id@, t));
    } else {
        assert(u.drop_last() =~= d.update(i, t));
        assert(ids_unicos(d));
        lema_mapa_update(d, i, t);
        assert(s.last().id@ != t.id@);
        assert(mapa(u) =~= mapa(s).insert(t.id@, t));
    }
}

proof fn lema_em_execucao_update(s: Seq<JobTask>, i: int, t: JobTask)
    requires
        0 <= i < s.len(),
    ensures
        em_execucao(s.update(i, t)) + (if s[i].status == JobStatus::Running { 1int } else { 0int })
            == em_execucao(s) + (if t.status == JobStatus::Running { 1int } else { 0int }),
    decreases s.len(),
{
    let u = s.update(i, t);
    if i == s.len() - 1 {
        assert(u.drop_last() =~= s.drop_last());
    } else {
        assert(u.drop_last() =~= s.drop_last().update(i, t));
        lema_em_execucao_update(s.drop_last(), i, t);
    }
}

/// Fila de jobs; cada id aparece uma vez.
pub struct JobQueue {
    jobs: Vec<JobTask>,
}

impl JobQueue {
    /// Jobs na ordem em que entraram pela primeira vez.
    pub closed spec fn tarefas(&self) -> Seq<JobTask> {
        self.jobs@
    }

    /// Jobs indexados pelo id.
    pub open spec fn vista(&self) -> Map<Seq<char>, JobTask> {
        mapa(self.tarefas())
    }

    /// Invariante da fila: ids únicos.
    #[verifier::type_invariant]
    spec fn bem_formada(self) -> bool {
        ids_unicos(self.jobs@)
    }

    /// Fila vazia.
    pub fn new() -> (r: Self)
        ensures
            r.vista() == Map::<Seq<char>, JobTask>::empty(),
            r.tarefas().len() == 0,
    {
        JobQueue { jobs: Vec::new() }
    }

    fn posicao(&self, id: &str) -> (r: Option<usize>)
        ensures
            match r {
                Some(i) => i < self.tarefas().len() && self.tarefas()[i as int].id@ == id@,
                None => !self.vista().dom().contains(id@),
            },
    {
        proof {
            use_type_invariant(self);
            lema_mapa(self.jobs@);
        }
        let mut i: usize = 0;
        while i < self.jobs.len()
            invariant
                i <= self.jobs.len(),
                forall|j: int| 0 <= j < i ==> self.jobs@[j].id@ != id@,
            decreases self.jobs.len() - i,
        {
            if self.jobs[i].id.as_str().to_owned() == id.to_owned() {
                return Some(i);
            }
            i = i + 1;
        }
        None
    }

    /// Job de id `id`, se houver.
    pub fn get(&self, id: &str) -> (r: Option<&JobTask>)
        ensures
            match r {
                Some(t) => self.vista().dom().contains(id@) && *t == self.vista()[id@],
                None => !self.vista().dom().contains(id@),
            },
    {
        proof {
            use_type_invariant(self);
            lema_mapa(self.jobs@);
        }
        match self.posicao(id) {
            Some(i) => Some(&self.jobs[i]),
            None => None,
        }
    }

    /// Põe o job na fila; um job com o mesmo id é substituído.
    pub fn enqueue(&mut self, job: JobTask)
        ensures
            final(self).vista() == old(self).vista().insert(job.id@, job),
            em_execucao(final(self).tarefas()) + (if old(self).vista().dom().contains(job.id@)
                && old(self).vista()[job.id@].status == JobStatus::Running { 1int } else { 0int })
                == em_execucao(old(self).tarefas()) + (if job.status == JobStatus::Running { 1int } else { 0int }),
    {
        proof {
            use_type_invariant(&*self);
            lema_mapa(self.jobs@);
        }
        let pos = self.posicao(job.id.as_str());
        let mut jobs: Vec<JobTask> = Vec::new();
        std::mem::swap(&mut jobs, &mut self.jobs);
        let ghost s = jobs@;
        match pos {
            Some(i) => {
                proof {
                    assert(mapa(s).dom().contains(s[i as int].id@));
                    assert(mapa(s)[job.id@] == s[i as int]);
                    lema_mapa_update(s, i as int, job);
                    lema_em_execucao_update(s, i as int, job);
                }
                jobs.set(i, job);
            },
            None => {
                proof {
                    assert forall|a: int| 0 <= a < s.len() implies s[a].id@ != job.id@ by {
                        assert(mapa(s).dom().contains(s[a].id@));
                    }
                }
                jobs.push(job);
                proof {
                    assert(jobs@.drop_last() =~= s);
                    assert(jobs@.last() == job);
                    assert(!mapa(s).dom().contains(job.id@));
                    assert(mapa(jobs@) == mapa(s).insert(job.id@, job));
                    assert(em_execucao(jobs@) == em_execucao(s)
                        + if job.status == JobStatus::Running { 1nat } else { 0nat });
                    assert forall|a: int, b: int| 0 <= a < jobs@.len() && 0 <= b < jobs@.len() && a != b
                        implies jobs@[a].id@ != jobs@[b].id@ by {
                        if a < s.len() && b < s.len() {
                            assert(jobs@[a] == s[a] && jobs@[b] == s[b]);
                        } else if a < s.len() {
                            assert(jobs@[a] == s[a]);
                        } else {
                            assert(jobs@[b] == s[b]);
                        }
                    }
                }
            },
        }
        self.jobs = jobs;
    }

    /// Registra o progresso do job `id`; `false` se não houver job com esse id.
    pub fn update_progress(&mut self, id: &str, progress: u8) -> (r: bool)
        ensures
            r == old(self).vista().dom().contains(id@),
            r ==> final(self).vista() == old(self).vista().insert(id@, com_progresso(old(self).vista()[id@], progress)),
            r ==> final(self).vista()[id@].status == (if progress >= 100 { JobStatus::Completed } else { JobStatus::Running }),
            r ==> final(self).vista()[id@].progress == (if progress <= 100 { progress } else { 100u8 }),
            !r ==> final(self).vista() == old(self).vista(),
    {
        proof {
            use_type_invariant(&*self);
            lema_mapa(self.jobs@);
        }
        match self.posicao(id) {
            Some(i) => {
                let mut t = self.jobs[i].copia();
                t.progress = if progress < 100 { progress } else { 100 };
                if t.progress == 100 {
                    t.status = JobStatus::Completed;
                } else {
                    t.status = JobStatus::Running;
                }
                let mut jobs: Vec<JobTask> = Vec::new();
                std::mem::swap(&mut jobs, &mut self.jobs);
                let ghost s = jobs@;
                proof {
                    assert(s[i as int].id@ == id@);
                    assert(mapa(s).dom().contains(s[i as int].id@));
                    assert(mapa(s)[id@] == s[i as int]);
                    lema_mapa_update(s, i as int, t);
                    assert(t == com_progresso(mapa(s)[id@], progress));
                    lei_progresso(mapa(s)[id@], progress);
                }
                jobs.set(i, t);
                self.jobs = jobs;
                true
            },
            None => false,
        }
    }

    /// Cancela o job `id`; `false` se não houver job com esse id.
    pub fn cancel(&mut self, id: &str) -> (r: bool)
        ensures
            r == old(self).vista().dom().contains(id@),
            r ==> final(self).vista() == old(self).vista().insert(id@, cancelado(old(self).vista()[id@])),
            !r ==> final(self).vista() == old(self).vista(),
    {
        proof {
            use_type_invariant(&*self);
            lema_mapa(self.jobs@);
        }
        match self.posicao(id) {
            Some(i) => {
                let mut t = self.jobs[i].copia();
                t.status = JobStatus::Cancelled;
                let mut jobs: Vec<JobTask> = Vec::new();
                std::mem::swap(&mut jobs, &mut self.jobs);
                let ghost s = jobs@;
                proof {
                    assert(mapa(s).dom().contains(s[i as int].id@));
                    assert(mapa(s)[id@] == s[i as int]);
                    lema_mapa_update(s, i as int, t);
                }
                jobs.set(i, t);
                self.jobs = jobs;
                true
            },
            None => false,
        }
    }

    /// Depois de uma queda, todo job que ficou "em execução" volta a pendente.
    /// Devolve quantos foram recuperados.
    pub fn recover_orphans(&mut self) -> (r: usize)
        ensures
            r == em_execucao(old(self).tarefas()),
            final(self).tarefas() == old(self).tarefas().map_values(|t: JobTask| recuperado(t)),
            em_execucao(final(self).tarefas()) == 0,
    {
        proof { use_type_invariant(&*self); }
        let mut jobs: Vec<JobTask> = Vec::new();
        std::mem::swap(&mut jobs, &mut self.jobs);
        let ghost inicio = jobs@;
        let mut recovered: usize = 0;
        let mut i: usize = 0;
        while i < jobs.len()
            invariant
                ids_unicos(jobs@),
                jobs@.len() == inicio.len(),
                i <= jobs@.len(),
                forall|k: int| 0 <= k < i ==> #[trigger] jobs@[k] == recuperado(inicio[k]),
                forall|k: int| i <= k < jobs@.len() ==> #[trigger] jobs@[k] == inicio[k],
                recovered + em_execucao(jobs@) == em_execucao(inicio),
                recovered <= i,
            decreases jobs.len() - i,
        {
            if jobs[i].status == JobStatus::Running {
                let mut t = jobs[i].copia();
                t.status = JobStatus::Pending;
                proof {
                    lema_mapa_update(jobs@, i as int, t);
                    lema_em_execucao_update(jobs@, i as int, t);
                }
                jobs.set(i, t);
                recovered = recovered + 1;
            }
            i = i + 1;
        }
        proof {
            assert(jobs@ =~= inicio.map_values(|t: JobTask| recuperado(t)));
            lema_sem_execucao(jobs@);
        }
        self.jobs = jobs;
        recovered
    }
}

proof fn lema_sem_execucao(s: Seq<JobTask>)
    requires
        forall|k: int| 0 <= k < s.len() ==> (#[trigger] s[k]).status != JobStatus::Running,
    ensures
        em_execucao(s) == 0,
    decreases s.len(),
{
    if s.len() > 0 {
        lema_sem_execucao(s.drop_last());
    }
}

} // verus!
