//! The entries of the technical reference, in catalog order.
use vstd::prelude::*;
use crate::reference::{
    Audience, EntryModel, MetricStatus, ReferenceEntry, ReferenceText, UiVisibility, model_of, models,
};

verus! {

/// The `cpu.usage` entry.
pub open spec fn cpu_usage_model() -> EntryModel {
    EntryModel {
        id: "cpu.usage",
        category: "cpu",
        panel: "cpu",
        status: MetricStatus::Implemented,
        ui_visibility: UiVisibility::Visible,
        audience: Audience::Beginner,
        aliases: seq![
            "cpu",
            "usage",
            "global cpu",
            "global cpu usage",
            "global cpu usage %",
            "processor",
        ],
        tags: seq![
            "cpu",
            "usage",
            "global",
            "processor",
        ],
        fr: ReferenceText {
            title: "CPU global",
            summary: "Montre la charge CPU totale observee sur l'hote.",
            beginner: "Plus la valeur se rapproche de 100%, plus le processeur est occupe.",
            expert: "Le pourcentage agrege additionne user, nice, system, irq, softirq et steal selon la source OS.",
        },
        en: ReferenceText {
            title: "Global CPU",
            summary: "Shows total CPU load observed on the host.",
            beginner: "The closer the value is to 100%, the busier the processor is.",
            expert: "The aggregate percentage combines user, nice, system, irq, softirq and steal depending on OS source data.",
        },
    }
}

/// The `cpu.load` entry.
pub open spec fn cpu_load_model() -> EntryModel {
    EntryModel {
        id: "cpu.load",
        category: "cpu",
        panel: "cpu",
        status: MetricStatus::Implemented,
        ui_visibility: UiVisibility::Visible,
        audience: Audience::Beginner,
        aliases: seq![
            "load",
            "load average",
            "1m",
            "5m",
            "15m",
        ],
        tags: seq![
            "cpu",
            "load",
            "scheduler",
        ],
        fr: ReferenceText {
            title: "Load average",
            summary: "Mesure la pression sur l'ordonnanceur sur 1, 5 et 15 minutes.",
            beginner: "Une load au-dessus du nombre de CPU peut signaler une file d'attente importante.",
            expert: "La semantique varie selon l'OS, mais reste utile comme signal de contention globale.",
        },
        en: ReferenceText {
            title: "Load average",
            summary: "Measures scheduler pressure over 1, 5 and 15 minutes.",
            beginner: "A load value above CPU count can indicate meaningful run queue pressure.",
            expert: "OS semantics differ, but it remains a useful host-level contention signal.",
        },
    }
}

/// The `cpu.iowait` entry.
pub open spec fn cpu_iowait_model() -> EntryModel {
    EntryModel {
        id: "cpu.iowait",
        category: "cpu",
        panel: "cpu",
        status: MetricStatus::Implemented,
        ui_visibility: UiVisibility::Visible,
        audience: Audience::Expert,
        aliases: seq![
            "iowait",
            "io wait",
            "cpu wait",
        ],
        tags: seq![
            "cpu",
            "disk",
            "latency",
            "linux",
        ],
        fr: ReferenceText {
            title: "CPU iowait",
            summary: "Temps passe par le CPU a attendre des IO blocantes.",
            beginner: "Une hausse d'iowait peut pointer vers un stockage lent ou sature.",
            expert: "Sur Linux, cette mesure vient des compteurs CPU et doit etre lue avec la latence disque et la queue depth.",
        },
        en: ReferenceText {
            title: "CPU iowait",
            summary: "CPU time spent waiting on blocking IO.",
            beginner: "Rising iowait can indicate slow or saturated storage.",
            expert: "On Linux this comes from CPU accounting and should be read alongside disk latency and queue depth.",
        },
    }
}

/// The `memory.pressure` entry.
pub open spec fn memory_pressure_model() -> EntryModel {
    EntryModel {
        id: "memory.pressure",
        category: "memory",
        panel: "memory",
        status: MetricStatus::Implemented,
        ui_visibility: UiVisibility::Visible,
        audience: Audience::Beginner,
        aliases: seq![
            "memory pressure",
            "memory pressure score",
            "pressure",
            "available memory",
        ],
        tags: seq![
            "memory",
            "pressure",
            "available",
            "swap",
        ],
        fr: ReferenceText {
            title: "Pression memoire",
            summary: "Indice derive pour estimer la tension sur la memoire de l'hote.",
            beginner: "Une forte pression memoire signifie qu'il reste peu de marge avant swap ou reclaim agressif.",
            expert: "Pulsar derive ce score a partir de la memoire disponible, de l'usage et des compteurs associes.",
        },
        en: ReferenceText {
            title: "Memory pressure",
            summary: "Derived index estimating how stressed host memory is.",
            beginner: "High pressure means little margin remains before swap or aggressive reclaim.",
            expert: "Pulsar derives this score from available memory, usage and related counters.",
        },
    }
}

/// The `memory.swap` entry.
pub open spec fn memory_swap_model() -> EntryModel {
    EntryModel {
        id: "memory.swap",
        category: "memory",
        panel: "memory",
        status: MetricStatus::Implemented,
        ui_visibility: UiVisibility::Visible,
        audience: Audience::Beginner,
        aliases: seq![
            "swap",
            "swap total used",
            "swap total / used",
            "paging",
            "swpin",
            "swpout",
        ],
        tags: seq![
            "memory",
            "swap",
            "paging",
        ],
        fr: ReferenceText {
            title: "Swap",
            summary: "Montre l'utilisation de l'espace d'echange disque par la memoire virtuelle.",
            beginner: "Une forte activite swap peut ralentir fortement la machine.",
            expert: "Le swap doit etre interprete avec la pression memoire, pgin/pgout et les alertes.",
        },
        en: ReferenceText {
            title: "Swap",
            summary: "Shows disk-backed virtual memory usage.",
            beginner: "Heavy swap activity can slow the host down significantly.",
            expert: "Read swap together with memory pressure, pgin/pgout and alerts.",
        },
    }
}

/// The `disk.await` entry.
pub open spec fn disk_await_model() -> EntryModel {
    EntryModel {
        id: "disk.await",
        category: "disk",
        panel: "disk",
        status: MetricStatus::Implemented,
        ui_visibility: UiVisibility::Visible,
        audience: Audience::Expert,
        aliases: seq![
            "await",
            "latency",
            "disk latency",
            "storage latency",
        ],
        tags: seq![
            "disk",
            "await",
            "latency",
            "storage",
        ],
        fr: ReferenceText {
            title: "Disk await",
            summary: "Latence moyenne observee par IO terminee.",
            beginner: "Plus cette valeur monte, plus les operations disque prennent du temps.",
            expert: "Pulsar la derive des compteurs de temps et d'IO completes, utile avec util% et queue depth.",
        },
        en: ReferenceText {
            title: "Disk await",
            summary: "Average latency observed per completed IO.",
            beginner: "Higher values mean disk operations take longer to finish.",
            expert: "Pulsar derives it from IO completion and timing counters; read it with util% and queue depth.",
        },
    }
}

/// The `disk.queue_depth` entry.
pub open spec fn disk_queue_depth_model() -> EntryModel {
    EntryModel {
        id: "disk.queue_depth",
        category: "disk",
        panel: "disk",
        status: MetricStatus::Implemented,
        ui_visibility: UiVisibility::Visible,
        audience: Audience::Expert,
        aliases: seq![
            "queue depth",
            "qd",
            "io queue",
        ],
        tags: seq![
            "disk",
            "queue",
            "latency",
            "saturation",
        ],
        fr: ReferenceText {
            title: "Queue depth",
            summary: "Approximation du nombre moyen d'IO en attente ou en cours.",
            beginner: "Une queue depth qui monte avec la latence indique souvent une saturation.",
            expert: "Cette valeur vient du temps IO pondere, donc elle reste une approximation aggregate par device.",
        },
        en: ReferenceText {
            title: "Queue depth",
            summary: "Approximation of the average number of pending or active IOs.",
            beginner: "If queue depth rises with latency, storage saturation is likely.",
            expert: "This comes from weighted IO time, so it remains an aggregated per-device approximation.",
        },
    }
}

/// The `network.tcp` entry.
pub open spec fn network_tcp_model() -> EntryModel {
    EntryModel {
        id: "network.tcp",
        category: "network",
        panel: "network",
        status: MetricStatus::Implemented,
        ui_visibility: UiVisibility::Visible,
        audience: Audience::Beginner,
        aliases: seq![
            "tcp",
            "connections",
            "total tcp connections",
            "established tcp connections",
            "established",
            "listen",
            "time_wait",
        ],
        tags: seq![
            "network",
            "tcp",
            "connections",
            "listen",
        ],
        fr: ReferenceText {
            title: "Connexions TCP",
            summary: "Resume l'etat courant des connexions reseau TCP.",
            beginner: "Established montre les connexions actives, Listen les sockets en attente, TimeWait les fins de session recentes.",
            expert: "Une hausse anormale de TimeWait, retrans ou syn peut signaler un probleme applicatif ou reseau.",
        },
        en: ReferenceText {
            title: "TCP connections",
            summary: "Summarizes the current state of TCP network connections.",
            beginner: "Established shows active sessions, Listen waiting sockets, TimeWait recent closed sessions.",
            expert: "Unusual rises in TimeWait, retrans or syn states can point to application or network issues.",
        },
    }
}

/// The `network.retrans` entry.
pub open spec fn network_retrans_model() -> EntryModel {
    EntryModel {
        id: "network.retrans",
        category: "network",
        panel: "network",
        status: MetricStatus::Implemented,
        ui_visibility: UiVisibility::Visible,
        audience: Audience::Expert,
        aliases: seq![
            "retrans",
            "retransmits",
            "packet loss",
        ],
        tags: seq![
            "network",
            "retrans",
            "loss",
            "tcp",
        ],
        fr: ReferenceText {
            title: "Retransmissions",
            summary: "Compteur de segments TCP retransmis.",
            beginner: "Une hausse peut indiquer perte reseau, congestion ou cible lente.",
            expert: "A lire avec le debit, les erreurs, l'etat des connexions et la saturation applicative.",
        },
        en: ReferenceText {
            title: "Retransmissions",
            summary: "Counter of retransmitted TCP segments.",
            beginner: "Rising values can indicate packet loss, congestion or a slow peer.",
            expert: "Read together with throughput, errors, connection states and application saturation.",
        },
    }
}

/// The `linux.psi` entry.
pub open spec fn linux_psi_model() -> EntryModel {
    EntryModel {
        id: "linux.psi",
        category: "linux",
        panel: "linux",
        status: MetricStatus::Partial,
        ui_visibility: UiVisibility::Visible,
        audience: Audience::Expert,
        aliases: seq![
            "psi",
            "pressure stall",
            "stall",
            "linux pressure",
        ],
        tags: seq![
            "linux",
            "psi",
            "pressure",
            "cpu",
            "memory",
            "io",
        ],
        fr: ReferenceText {
            title: "PSI Linux",
            summary: "Pressure Stall Information mesure le temps perdu a cause de CPU, memoire ou IO.",
            beginner: "Si PSI monte, des taches restent bloquees faute de ressources.",
            expert: "Le avg10 est tres utile pour voir une degradation recente, surtout combine a cgroup et alerts.",
        },
        en: ReferenceText {
            title: "Linux PSI",
            summary: "Pressure Stall Information measures time lost to CPU, memory or IO pressure.",
            beginner: "When PSI rises, tasks are getting stalled by missing resources.",
            expert: "avg10 is especially useful for recent degradation, particularly with cgroup and alert context.",
        },
    }
}

/// The `linux.cgroup` entry.
pub open spec fn linux_cgroup_model() -> EntryModel {
    EntryModel {
        id: "linux.cgroup",
        category: "linux",
        panel: "linux",
        status: MetricStatus::Partial,
        ui_visibility: UiVisibility::Visible,
        audience: Audience::Expert,
        aliases: seq![
            "cgroup",
            "container",
            "containers cgroup v2",
            "containers / cgroup v2",
            "cpu throttle",
            "memory max",
        ],
        tags: seq![
            "linux",
            "cgroup",
            "container",
            "limits",
        ],
        fr: ReferenceText {
            title: "Cgroup v2",
            summary: "Expose les limites et usages de ressources du groupe de controle courant.",
            beginner: "Pratique pour savoir si le processus tourne dans un conteneur ou sous quotas.",
            expert: "La memoire max, les pids et le throttling CPU aident a differencier un probleme host d'une limite imposee.",
        },
        en: ReferenceText {
            title: "Cgroup v2",
            summary: "Shows resource limits and usage for the current control group.",
            beginner: "Useful to tell whether the process runs inside a container or quota.",
            expert: "Memory max, pid limits and CPU throttling help separate host pressure from imposed limits.",
        },
    }
}

/// The `process.cpu` entry.
pub open spec fn process_cpu_model() -> EntryModel {
    EntryModel {
        id: "process.cpu",
        category: "process",
        panel: "process",
        status: MetricStatus::Implemented,
        ui_visibility: UiVisibility::Visible,
        audience: Audience::Beginner,
        aliases: seq![
            "process cpu",
            "top process",
            "pid",
            "threads",
        ],
        tags: seq![
            "process",
            "cpu",
            "pid",
            "top",
        ],
        fr: ReferenceText {
            title: "Top processus",
            summary: "Liste les processus les plus visibles selon CPU et autres compteurs.",
            beginner: "Commencez ici pour voir quel processus consomme CPU, memoire ou descripteurs.",
            expert: "La vue est utile pour un tri rapide, mais doit etre recroisee avec watch, snapshot ou replay.",
        },
        en: ReferenceText {
            title: "Top processes",
            summary: "Lists the most visible processes by CPU and related counters.",
            beginner: "Start here to see which process is using CPU, memory or file descriptors.",
            expert: "This is a fast triage view and should be cross-checked with watch, snapshot or replay.",
        },
    }
}

/// The `process.jvm` entry.
pub open spec fn process_jvm_model() -> EntryModel {
    EntryModel {
        id: "process.jvm",
        category: "process",
        panel: "process",
        status: MetricStatus::Partial,
        ui_visibility: UiVisibility::Visible,
        audience: Audience::Expert,
        aliases: seq![
            "jvm",
            "java",
            "jvm detection",
        ],
        tags: seq![
            "process",
            "jvm",
            "java",
        ],
        fr: ReferenceText {
            title: "Detection JVM",
            summary: "Marque certains processus comme JVM selon des heuristiques simples.",
            beginner: "Le tag JVM aide a reperer rapidement une application Java dans la liste.",
            expert: "Ce n'est pas encore une detection profonde de runtime; le signal reste heuristique.",
        },
        en: ReferenceText {
            title: "JVM detection",
            summary: "Marks some processes as JVMs using simple heuristics.",
            beginner: "The JVM tag helps spot Java applications quickly in the process list.",
            expert: "This is not deep runtime detection yet; the signal is still heuristic.",
        },
    }
}

/// The `alerts` entry.
pub open spec fn alerts_model() -> EntryModel {
    EntryModel {
        id: "alerts",
        category: "derived",
        panel: "alerts",
        status: MetricStatus::Implemented,
        ui_visibility: UiVisibility::Visible,
        audience: Audience::Beginner,
        aliases: seq![
            "alerts",
            "threshold alerts",
            "warning",
            "critical",
            "health",
        ],
        tags: seq![
            "alerts",
            "health",
            "thresholds",
        ],
        fr: ReferenceText {
            title: "Alertes",
            summary: "Les alertes synthetisent les signaux les plus urgents du snapshot.",
            beginner: "Utilisez-les comme point d'entree, puis remontez vers CPU, memoire, disque ou reseau.",
            expert: "Les alertes actuelles sont locales et basees sur seuils; elles donnent du contexte mais pas une RCA complete.",
        },
        en: ReferenceText {
            title: "Alerts",
            summary: "Alerts summarize the most urgent signals in the current snapshot.",
            beginner: "Use them as an entry point, then drill into CPU, memory, disk or network.",
            expert: "Current alerts are local and threshold-based; they provide context, not full RCA.",
        },
    }
}

/// The `expert.pressure_view` entry.
pub open spec fn expert_pressure_view_model() -> EntryModel {
    EntryModel {
        id: "expert.pressure_view",
        category: "derived",
        panel: "linux",
        status: MetricStatus::Implemented,
        ui_visibility: UiVisibility::IndexedOnly,
        audience: Audience::Expert,
        aliases: seq![
            "pressure+",
            "expert pressure",
            "pressure view",
            "diagnostic pression",
        ],
        tags: seq![
            "expert",
            "pressure",
            "psi",
            "cgroup",
            "memory",
        ],
        fr: ReferenceText {
            title: "Vue experte pression",
            summary: "Regroupe pression memoire, PSI, throttling et processus bloques.",
            beginner: "Vue reservee au diagnostic avance de contention locale.",
            expert: "Doit aider a separer pression host, pression cgroup et symptomes process.",
        },
        en: ReferenceText {
            title: "Expert pressure view",
            summary: "Groups memory pressure, PSI, throttling and stalled processes.",
            beginner: "This view is meant for advanced local contention diagnosis.",
            expert: "It should separate host pressure, cgroup pressure and process symptoms.",
        },
    }
}

/// The `expert.network_view` entry.
pub open spec fn expert_network_view_model() -> EntryModel {
    EntryModel {
        id: "expert.network_view",
        category: "network",
        panel: "network",
        status: MetricStatus::Implemented,
        ui_visibility: UiVisibility::IndexedOnly,
        audience: Audience::Expert,
        aliases: seq![
            "network+",
            "expert network",
            "network diagnosis",
            "socket diagnosis",
        ],
        tags: seq![
            "expert",
            "network",
            "tcp",
            "udp",
            "retrans",
            "socket",
        ],
        fr: ReferenceText {
            title: "Vue experte reseau",
            summary: "Met en avant debit, pps, retransmissions et etats TCP.",
            beginner: "Plus technique qu'une simple vue trafic, utile pour incidents reseau.",
            expert: "Pensee comme une lecture locale inspiree des reflexes Wireshark sans capture brute.",
        },
        en: ReferenceText {
            title: "Expert network view",
            summary: "Highlights throughput, pps, retransmissions and TCP states.",
            beginner: "More technical than a simple traffic view and useful during network incidents.",
            expert: "Designed as a local readout inspired by Wireshark instincts without raw packet capture.",
        },
    }
}

/// The `expert.jvm_view` entry.
pub open spec fn expert_jvm_view_model() -> EntryModel {
    EntryModel {
        id: "expert.jvm_view",
        category: "process",
        panel: "process",
        status: MetricStatus::Implemented,
        ui_visibility: UiVisibility::IndexedOnly,
        audience: Audience::Expert,
        aliases: seq![
            "jvm+",
            "expert jvm",
            "jvm diagnosis",
            "java diagnosis",
        ],
        tags: seq![
            "expert",
            "jvm",
            "java",
            "threads",
            "runtime",
        ],
        fr: ReferenceText {
            title: "Vue experte JVM",
            summary: "Met en avant CPU, memoire, threads, FDs et IO des JVM detectees.",
            beginner: "Donne un premier tri local avant des outils JVM plus intrusifs.",
            expert: "Ce n'est pas encore un thread dump analyzer, mais une passerelle rapide vers la bonne JVM.",
        },
        en: ReferenceText {
            title: "Expert JVM view",
            summary: "Highlights CPU, memory, threads, FDs and IO for detected JVMs.",
            beginner: "Provides a first local triage before using more intrusive JVM tooling.",
            expert: "This is not yet a thread-dump analyzer, but it is a fast bridge to the right JVM.",
        },
    }
}

/// The `expert.disk_pressure_view` entry.
pub open spec fn expert_disk_pressure_view_model() -> EntryModel {
    EntryModel {
        id: "expert.disk_pressure_view",
        category: "disk",
        panel: "disk",
        status: MetricStatus::Implemented,
        ui_visibility: UiVisibility::IndexedOnly,
        audience: Audience::Expert,
        aliases: seq![
            "disk+",
            "expert disk",
            "disk pressure",
            "disk contention",
        ],
        tags: seq![
            "expert",
            "disk",
            "await",
            "queue",
            "latency",
            "disk sleep",
        ],
        fr: ReferenceText {
            title: "Vue experte contention disque",
            summary: "Croise disque chaud, latence, queue depth et processus en sommeil disque.",
            beginner: "Utile pour repondre vite a la question : quel disque souffre et qui attend ?",
            expert: "Doit aider a relier saturation bloc, service time et symptomes process.",
        },
        en: ReferenceText {
            title: "Expert disk contention view",
            summary: "Cross-checks hot disks, latency, queue depth and disk-sleeping processes.",
            beginner: "Useful to answer quickly: which disk is hurting and who is waiting?",
            expert: "It should connect block saturation, service time and process symptoms.",
        },
    }
}

/// The `expert.pressure_paths` entry.
pub open spec fn expert_pressure_paths_model() -> EntryModel {
    EntryModel {
        id: "expert.pressure_paths",
        category: "derived",
        panel: "linux",
        status: MetricStatus::Implemented,
        ui_visibility: UiVisibility::IndexedOnly,
        audience: Audience::Expert,
        aliases: seq![
            "pressure paths",
            "host mem pressure",
            "psi mem avg10",
            "cpu throttled",
        ],
        tags: seq![
            "expert",
            "pressure",
            "psi",
            "cgroup",
            "drilldown",
        ],
        fr: ReferenceText {
            title: "Chemins de pression",
            summary: "Table de drill-down qui separe pression hote, PSI, load et cgroup.",
            beginner: "Utile si vous voulez comprendre d'ou vient la tension avant d'ouvrir d'autres outils.",
            expert: "Le but est de distinguer pression host-wide, limite cgroup et symptomes CPU/IO dans une seule vue.",
        },
        en: ReferenceText {
            title: "Pressure paths",
            summary: "Drill-down table separating host pressure, PSI, load and cgroup signals.",
            beginner: "Useful when you want to understand where the stress comes from before opening heavier tools.",
            expert: "The goal is to separate host-wide pressure, cgroup limits and CPU/IO symptoms in one view.",
        },
    }
}

/// The `expert.socket_states` entry.
pub open spec fn expert_socket_states_model() -> EntryModel {
    EntryModel {
        id: "expert.socket_states",
        category: "network",
        panel: "network",
        status: MetricStatus::Implemented,
        ui_visibility: UiVisibility::IndexedOnly,
        audience: Audience::Expert,
        aliases: seq![
            "socket states",
            "tcp states",
            "syn sent recv",
            "close wait",
        ],
        tags: seq![
            "expert",
            "network",
            "socket",
            "tcp",
            "drilldown",
        ],
        fr: ReferenceText {
            title: "Etats socket/TCP",
            summary: "Drill-down des etats TCP et UDP pour l'analyse incidente locale.",
            beginner: "Permet de voir si le probleme ressemble plus a un souci de lien ou de sessions.",
            expert: "A lire avec retransmissions, drops et debit d'interface pour approcher une lecture type Wireshark locale.",
        },
        en: ReferenceText {
            title: "Socket/TCP states",
            summary: "Drill-down of TCP and UDP states for local incident analysis.",
            beginner: "Helps tell whether the issue looks more like a link problem or a session problem.",
            expert: "Read together with retransmissions, drops and interface throughput for a local Wireshark-like readout.",
        },
    }
}

/// The `expert.jvm_hotspots` entry.
pub open spec fn expert_jvm_hotspots_model() -> EntryModel {
    EntryModel {
        id: "expert.jvm_hotspots",
        category: "process",
        panel: "process",
        status: MetricStatus::Implemented,
        ui_visibility: UiVisibility::IndexedOnly,
        audience: Audience::Expert,
        aliases: seq![
            "jvm hotspots",
            "thread runtime",
            "thread analyzer",
            "runtime focus",
        ],
        tags: seq![
            "expert",
            "jvm",
            "threads",
            "runtime",
            "drilldown",
        ],
        fr: ReferenceText {
            title: "Hotspots JVM",
            summary: "Table de drill-down JVM centree sur CPU, RSS, threads, FDs et IO.",
            beginner: "Utile pour identifier rapidement quelle JVM merite un outil plus intrusif.",
            expert: "Ce n'est pas encore un dump de threads, mais deja une orientation runtime locale tres rapide.",
        },
        en: ReferenceText {
            title: "JVM hotspots",
            summary: "JVM drill-down table focused on CPU, RSS, threads, FDs and IO.",
            beginner: "Useful to quickly identify which JVM deserves deeper tooling.",
            expert: "This is not yet a full thread dump, but it is already a fast local runtime orientation.",
        },
    }
}

/// The `expert.disk_waiters` entry.
pub open spec fn expert_disk_waiters_model() -> EntryModel {
    EntryModel {
        id: "expert.disk_waiters",
        category: "disk",
        panel: "disk",
        status: MetricStatus::Implemented,
        ui_visibility: UiVisibility::IndexedOnly,
        audience: Audience::Expert,
        aliases: seq![
            "disk waiters",
            "waiters io",
            "processus d",
            "io waiters",
        ],
        tags: seq![
            "expert",
            "disk",
            "waiters",
            "io",
            "drilldown",
        ],
        fr: ReferenceText {
            title: "Attenteurs disque / IO",
            summary: "Relie le disque chaud aux processus qui lisent, ecrivent ou attendent le blocage.",
            beginner: "Repond vite a la question : qui souffre du stockage maintenant ?",
            expert: "Pensee pour relier device, queue depth, await et symptomes process dans le meme ecran.",
        },
        en: ReferenceText {
            title: "Disk / IO waiters",
            summary: "Links the hot disk to the processes reading, writing or waiting on storage.",
            beginner: "Quickly answers: who is suffering from storage right now?",
            expert: "Designed to connect device, queue depth, await and process symptoms in the same screen.",
        },
    }
}

/// The `cpu.per_core` entry.
pub open spec fn cpu_per_core_model() -> EntryModel {
    EntryModel {
        id: "cpu.per_core",
        category: "cpu",
        panel: "cpu",
        status: MetricStatus::Partial,
        ui_visibility: UiVisibility::IndexedOnly,
        audience: Audience::Beginner,
        aliases: seq![
            "per core",
            "core cpu",
            "cpu core",
            "per-core cpu usage",
        ],
        tags: seq![
            "cpu",
            "core",
            "hotspot",
        ],
        fr: ReferenceText {
            title: "CPU par coeur",
            summary: "Detail CPU coeur par coeur.",
            beginner: "Permet de voir un coeur saturer meme si le global reste modere.",
            expert: "Utile pour les workloads single-thread et les problemes d'affinite.",
        },
        en: ReferenceText {
            title: "Per-core CPU",
            summary: "CPU broken down per core.",
            beginner: "Lets you see one hot core even if total CPU remains moderate.",
            expert: "Useful for single-thread workloads and affinity issues.",
        },
    }
}

/// The `cpu.scheduler` entry.
pub open spec fn cpu_scheduler_model() -> EntryModel {
    EntryModel {
        id: "cpu.scheduler",
        category: "cpu",
        panel: "cpu",
        status: MetricStatus::Implemented,
        ui_visibility: UiVisibility::IndexedOnly,
        audience: Audience::Expert,
        aliases: seq![
            "context switches",
            "interrupt count",
            "interrupts",
            "ctx",
            "irq count",
        ],
        tags: seq![
            "cpu",
            "scheduler",
            "interrupts",
        ],
        fr: ReferenceText {
            title: "Signaux ordonnanceur CPU",
            summary: "Regroupe context switches et interruptions.",
            beginner: "Aide a reperer une agitation systeme inhabituelle.",
            expert: "A relier a load, irq%, softirq% et au profil de charge.",
        },
        en: ReferenceText {
            title: "CPU scheduler signals",
            summary: "Groups context switches and interrupts.",
            beginner: "Helps spot unusual system churn.",
            expert: "Read it with load, irq%, softirq% and workload profile.",
        },
    }
}

/// The `cpu.steal` entry.
pub open spec fn cpu_steal_model() -> EntryModel {
    EntryModel {
        id: "cpu.steal",
        category: "cpu",
        panel: "cpu",
        status: MetricStatus::Partial,
        ui_visibility: UiVisibility::IndexedOnly,
        audience: Audience::Expert,
        aliases: seq![
            "steal",
            "steal %",
            "stolen cpu",
        ],
        tags: seq![
            "cpu",
            "steal",
            "virtualization",
        ],
        fr: ReferenceText {
            title: "CPU steal",
            summary: "Temps CPU vole par la couche de virtualisation.",
            beginner: "Surtout utile en VM pour voir si l'hote manque de CPU reel.",
            expert: "Signal fort sous Linux, plus approximatif hors Linux.",
        },
        en: ReferenceText {
            title: "CPU steal",
            summary: "CPU time taken away by the virtualization layer.",
            beginner: "Mostly useful on VMs to see whether the host lacks real CPU time.",
            expert: "Strong signal on Linux, more approximate outside Linux.",
        },
    }
}

/// The `cpu.pressure` entry.
pub open spec fn cpu_pressure_model() -> EntryModel {
    EntryModel {
        id: "cpu.pressure",
        category: "cpu",
        panel: "cpu",
        status: MetricStatus::Planned,
        ui_visibility: UiVisibility::IndexedOnly,
        audience: Audience::Expert,
        aliases: seq![
            "cpu pressure",
            "cpu pressure indicators",
            "scheduler pressure",
        ],
        tags: seq![
            "cpu",
            "pressure",
            "planned",
        ],
        fr: ReferenceText {
            title: "Pression CPU",
            summary: "Indicateur de contention CPU plus direct que l'usage pur.",
            beginner: "Objectif : montrer quand les taches attendent vraiment du CPU.",
            expert: "Planifie pour completer usage, load et PSI.",
        },
        en: ReferenceText {
            title: "CPU pressure",
            summary: "A CPU contention signal more direct than raw usage.",
            beginner: "Goal: show when tasks are truly waiting for CPU time.",
            expert: "Planned to complement usage, load and PSI.",
        },
    }
}

/// The `memory.breakdown` entry.
pub open spec fn memory_breakdown_model() -> EntryModel {
    EntryModel {
        id: "memory.breakdown",
        category: "memory",
        panel: "memory",
        status: MetricStatus::Implemented,
        ui_visibility: UiVisibility::IndexedOnly,
        audience: Audience::Beginner,
        aliases: seq![
            "total memory",
            "used memory",
            "free memory",
            "available memory",
            "cached memory",
        ],
        tags: seq![
            "memory",
            "used",
            "free",
            "available",
            "cached",
        ],
        fr: ReferenceText {
            title: "Detail memoire",
            summary: "Total, utilise, libre, disponible, cache.",
            beginner: "La memoire disponible est souvent plus utile que la memoire libre brute.",
            expert: "La parite cache/buffers reste variable selon l'OS.",
        },
        en: ReferenceText {
            title: "Memory breakdown",
            summary: "Total, used, free, available, cached.",
            beginner: "Available memory is often more useful than raw free memory.",
            expert: "Cache/buffer parity still varies by OS.",
        },
    }
}

/// The `memory.vm_counters` entry.
pub open spec fn memory_vm_counters_model() -> EntryModel {
    EntryModel {
        id: "memory.vm_counters",
        category: "memory",
        panel: "memory",
        status: MetricStatus::Implemented,
        ui_visibility: UiVisibility::IndexedOnly,
        audience: Audience::Expert,
        aliases: seq![
            "buffers",
            "dirty pages",
            "pgfault",
            "pgscan",
            "pgsteal",
        ],
        tags: seq![
            "memory",
            "vm",
            "buffers",
            "dirty",
            "paging",
        ],
        fr: ReferenceText {
            title: "Compteurs VM",
            summary: "Compteurs paging, reclaim et activite memoire.",
            beginner: "Plus utile pour du diagnostic avance que pour une lecture simple.",
            expert: "Permet de separer cache sain, manque de RAM et reclaim agressif.",
        },
        en: ReferenceText {
            title: "VM counters",
            summary: "Paging, reclaim and memory-activity counters.",
            beginner: "More useful for advanced diagnosis than simple daily reading.",
            expert: "Helps separate healthy cache, RAM shortage and aggressive reclaim.",
        },
    }
}

/// The `disk.capacity` entry.
pub open spec fn disk_capacity_model() -> EntryModel {
    EntryModel {
        id: "disk.capacity",
        category: "disk",
        panel: "disk",
        status: MetricStatus::Implemented,
        ui_visibility: UiVisibility::IndexedOnly,
        audience: Audience::Beginner,
        aliases: seq![
            "disk usage",
            "disk usage %",
            "disk free",
            "disk total used free",
            "disk total / used / free",
            "capacity",
            "filesystem usage",
            "per-filesystem detail parity",
        ],
        tags: seq![
            "disk",
            "filesystem",
            "capacity",
            "usage",
        ],
        fr: ReferenceText {
            title: "Capacite disque",
            summary: "Total, libre, utilise et taux d'occupation.",
            beginner: "Un disque plein peut degrader l'hote et casser des applis.",
            expert: "La profondeur filesystem detaillee complete reste encore planifiee.",
        },
        en: ReferenceText {
            title: "Disk capacity",
            summary: "Total, free, used space and usage rate.",
            beginner: "A full disk can degrade the host and break applications.",
            expert: "Full filesystem-detail parity is still planned.",
        },
    }
}

/// The `disk.performance` entry.
pub open spec fn disk_performance_model() -> EntryModel {
    EntryModel {
        id: "disk.performance",
        category: "disk",
        panel: "disk",
        status: MetricStatus::Implemented,
        ui_visibility: UiVisibility::IndexedOnly,
        audience: Audience::Expert,
        aliases: seq![
            "iops",
            "read iops",
            "write iops",
            "throughput",
            "read throughput",
            "write throughput",
            "disk utilization",
            "disk utilization %",
            "disk await latency",
            "disk await / latency",
            "util",
            "service time",
        ],
        tags: seq![
            "disk",
            "iops",
            "throughput",
            "utilization",
        ],
        fr: ReferenceText {
            title: "Performance disque",
            summary: "IOPS, debit, util% et temps de service.",
            beginner: "Un haut debit seul n'est pas un probleme s'il n'y a pas de latence.",
            expert: "La saturation se lit avec await, queue depth, util% et debit ensemble.",
        },
        en: ReferenceText {
            title: "Disk performance",
            summary: "IOPS, throughput, util% and service time.",
            beginner: "High throughput alone is not a problem if latency stays low.",
            expert: "Saturation must be read through await, queue depth, util% and throughput together.",
        },
    }
}

/// The `network.throughput` entry.
pub open spec fn network_throughput_model() -> EntryModel {
    EntryModel {
        id: "network.throughput",
        category: "network",
        panel: "network",
        status: MetricStatus::Implemented,
        ui_visibility: UiVisibility::IndexedOnly,
        audience: Audience::Beginner,
        aliases: seq![
            "rx bytes",
            "rx bytes/sec",
            "tx bytes",
            "tx bytes/sec",
            "network throughput",
            "bandwidth",
        ],
        tags: seq![
            "network",
            "throughput",
            "rx",
            "tx",
        ],
        fr: ReferenceText {
            title: "Debit reseau",
            summary: "Debit entrant et sortant par interface.",
            beginner: "Premier signal pour voir si une interface travaille beaucoup.",
            expert: "A croiser avec paquets, erreurs, drops et retrans.",
        },
        en: ReferenceText {
            title: "Network throughput",
            summary: "Inbound and outbound throughput per interface.",
            beginner: "First signal to see whether an interface is busy.",
            expert: "Cross-check it with packets, errors, drops and retrans.",
        },
    }
}

/// The `network.packets` entry.
pub open spec fn network_packets_model() -> EntryModel {
    EntryModel {
        id: "network.packets",
        category: "network",
        panel: "network",
        status: MetricStatus::Implemented,
        ui_visibility: UiVisibility::IndexedOnly,
        audience: Audience::Expert,
        aliases: seq![
            "packet rate",
            "rx packets",
            "rx packets/sec",
            "tx packets",
            "tx packets/sec",
            "pps",
        ],
        tags: seq![
            "network",
            "packets",
            "pps",
        ],
        fr: ReferenceText {
            title: "Paquets reseau",
            summary: "Paquets recus et emis par seconde.",
            beginner: "Utile quand le debit semble faible mais qu'il y a beaucoup de petits paquets.",
            expert: "Aide a distinguer gros flux et trafic a forte frequence de paquets.",
        },
        en: ReferenceText {
            title: "Network packets",
            summary: "Packets received and sent per second.",
            beginner: "Useful when throughput looks low but lots of tiny packets are moving.",
            expert: "Helps separate large flows from packet-rate-heavy traffic.",
        },
    }
}

/// The `network.errors_drops` entry.
pub open spec fn network_errors_drops_model() -> EntryModel {
    EntryModel {
        id: "network.errors_drops",
        category: "network",
        panel: "network",
        status: MetricStatus::Partial,
        ui_visibility: UiVisibility::IndexedOnly,
        audience: Audience::Expert,
        aliases: seq![
            "errors",
            "rx tx errors",
            "rx/tx errors",
            "drops",
            "rx tx drops",
            "rx/tx drops",
            "packet drops",
        ],
        tags: seq![
            "network",
            "errors",
            "drops",
        ],
        fr: ReferenceText {
            title: "Erreurs et drops reseau",
            summary: "Compteurs de paquets en erreur ou abandonnes.",
            beginner: "Une hausse persistante est un mauvais signal pour le chemin reseau.",
            expert: "La parite exacte varie encore selon l'OS, mais le signal reste critique.",
        },
        en: ReferenceText {
            title: "Network errors and drops",
            summary: "Counters of errored or dropped packets.",
            beginner: "A persistent rise is a bad sign for the network path.",
            expert: "Exact parity still varies by OS, but the signal remains critical.",
        },
    }
}

/// The `network.udp_depth` entry.
pub open spec fn network_udp_depth_model() -> EntryModel {
    EntryModel {
        id: "network.udp_depth",
        category: "network",
        panel: "network",
        status: MetricStatus::Planned,
        ui_visibility: UiVisibility::IndexedOnly,
        audience: Audience::Expert,
        aliases: seq![
            "udp",
            "socket family",
            "udp depth",
            "udp socket family depth",
            "udp / socket family depth",
        ],
        tags: seq![
            "network",
            "udp",
            "planned",
        ],
        fr: ReferenceText {
            title: "Profondeur UDP/socket",
            summary: "Vue reseau plus fine par famille de sockets, encore planifiee.",
            beginner: "Pas vitale au quotidien, utile pour cas reseau plus avances.",
            expert: "Manque encore pour une lecture fine des charges non-TCP.",
        },
        en: ReferenceText {
            title: "UDP/socket depth",
            summary: "Finer network view by socket family, still planned.",
            beginner: "Not vital daily, useful for more advanced network cases.",
            expert: "Still missing for precise reading of non-TCP workloads.",
        },
    }
}

/// The `process.inventory` entry.
pub open spec fn process_inventory_model() -> EntryModel {
    EntryModel {
        id: "process.inventory",
        category: "process",
        panel: "process",
        status: MetricStatus::Implemented,
        ui_visibility: UiVisibility::IndexedOnly,
        audience: Audience::Beginner,
        aliases: seq![
            "top n",
            "top n process listing",
            "process rss",
            "process vsz",
            "process thread count",
            "thread count",
            "process fd count",
            "fd count",
            "process owner",
            "owner",
            "process read write bytes",
            "process read/write bytes",
            "process io",
            "basic jvm detection",
        ],
        tags: seq![
            "process",
            "rss",
            "vsz",
            "threads",
            "fd",
            "owner",
            "io",
        ],
        fr: ReferenceText {
            title: "Inventaire processus",
            summary: "Regroupe RSS, VSZ, threads, FDs, owner et IO.",
            beginner: "Le point de depart pour voir quel processus pese vraiment sur l'hote.",
            expert: "Vue de tri rapide a completer par watch, snapshot et replay.",
        },
        en: ReferenceText {
            title: "Process inventory",
            summary: "Groups RSS, VSZ, threads, FDs, owner and IO.",
            beginner: "The starting point to see which process really weighs on the host.",
            expert: "Fast triage view to complement with watch, snapshot and replay.",
        },
    }
}

/// The `process.jvm.deep` entry.
pub open spec fn process_jvm_deep_model() -> EntryModel {
    EntryModel {
        id: "process.jvm.deep",
        category: "process",
        panel: "process",
        status: MetricStatus::Planned,
        ui_visibility: UiVisibility::IndexedOnly,
        audience: Audience::Expert,
        aliases: seq![
            "strong jvm awareness",
            "deep jvm",
            "jvm runtime",
        ],
        tags: seq![
            "process",
            "jvm",
            "planned",
            "runtime",
        ],
        fr: ReferenceText {
            title: "JVM approfondie",
            summary: "Visibilite JVM plus riche, encore planifiee.",
            beginner: "Objectif : faire mieux qu'un simple tag JVM.",
            expert: "Doit etendre l'heuristique actuelle avec de vrais signaux runtime.",
        },
        en: ReferenceText {
            title: "Deep JVM awareness",
            summary: "Richer JVM visibility, still planned.",
            beginner: "Goal: go beyond a simple JVM tag.",
            expert: "Should extend the current heuristic with real runtime signals.",
        },
    }
}

/// The `process.thread_analysis` entry.
pub open spec fn process_thread_analysis_model() -> EntryModel {
    EntryModel {
        id: "process.thread_analysis",
        category: "process",
        panel: "process",
        status: MetricStatus::Planned,
        ui_visibility: UiVisibility::IndexedOnly,
        audience: Audience::Expert,
        aliases: seq![
            "deep per-thread analysis",
            "thread analysis",
        ],
        tags: seq![
            "process",
            "threads",
            "planned",
        ],
        fr: ReferenceText {
            title: "Analyse par thread",
            summary: "Diagnostic detaille au niveau thread, encore planifie.",
            beginner: "Pas necessaire pour l'usage de base, mais utile pour blocages complexes.",
            expert: "Important pour hot threads, affinite CPU et internals runtime.",
        },
        en: ReferenceText {
            title: "Per-thread analysis",
            summary: "Detailed thread-level diagnosis, still planned.",
            beginner: "Not needed for basic use, but useful for complex stalls.",
            expert: "Important for hot threads, CPU affinity and runtime internals.",
        },
    }
}

/// The `process.runtime_awareness` entry.
pub open spec fn process_runtime_awareness_model() -> EntryModel {
    EntryModel {
        id: "process.runtime_awareness",
        category: "process",
        panel: "process",
        status: MetricStatus::Planned,
        ui_visibility: UiVisibility::IndexedOnly,
        audience: Audience::Expert,
        aliases: seq![
            "python awareness",
            "runtime awareness",
            "python app-runtime awareness",
            "python / app-runtime awareness",
        ],
        tags: seq![
            "process",
            "runtime",
            "python",
            "planned",
        ],
        fr: ReferenceText {
            title: "Awareness runtime",
            summary: "Visibilite applicative plus riche pour Python et autres runtimes.",
            beginner: "Objectif : mieux relier un processus a son comportement applicatif.",
            expert: "Etend Pulsar au-dela de la simple observabilite host.",
        },
        en: ReferenceText {
            title: "Runtime awareness",
            summary: "Richer application visibility for Python and other runtimes.",
            beginner: "Goal: connect a process more clearly to real application behavior.",
            expert: "Extends Pulsar beyond simple host observability.",
        },
    }
}

/// The `system.identity` entry.
pub open spec fn system_identity_model() -> EntryModel {
    EntryModel {
        id: "system.identity",
        category: "system",
        panel: "cpu",
        status: MetricStatus::Implemented,
        ui_visibility: UiVisibility::IndexedOnly,
        audience: Audience::Beginner,
        aliases: seq![
            "hostname",
            "os version",
            "os name version",
            "os name / version",
            "kernel",
            "kernel version",
            "uptime",
            "architecture",
            "cpu count",
        ],
        tags: seq![
            "system",
            "metadata",
            "host",
            "kernel",
            "uptime",
        ],
        fr: ReferenceText {
            title: "Identite systeme",
            summary: "Nom d'hote, OS, kernel, uptime, architecture et nombre de CPU.",
            beginner: "Base utile pour savoir exactement quelle machine on lit.",
            expert: "Conditionne l'interpretation correcte des autres metriques.",
        },
        en: ReferenceText {
            title: "System identity",
            summary: "Hostname, OS, kernel, uptime, architecture and CPU count.",
            beginner: "Useful baseline to know exactly which machine you are reading.",
            expert: "Shapes the correct interpretation of the other metrics.",
        },
    }
}

/// The `derived.cpu_trend` entry.
pub open spec fn derived_cpu_trend_model() -> EntryModel {
    EntryModel {
        id: "derived.cpu_trend",
        category: "derived",
        panel: "cpu",
        status: MetricStatus::Implemented,
        ui_visibility: UiVisibility::IndexedOnly,
        audience: Audience::Expert,
        aliases: seq![
            "cpu trend",
            "cpu trend percentiles",
            "p50",
            "p95",
            "trend percentiles",
        ],
        tags: seq![
            "derived",
            "cpu",
            "trend",
            "percentiles",
        ],
        fr: ReferenceText {
            title: "Tendance CPU",
            summary: "Percentiles derives pour lisser la lecture CPU recente.",
            beginner: "Aide a voir si la charge est ponctuelle ou installee.",
            expert: "Une vue plus robuste qu'un instantane unique.",
        },
        en: ReferenceText {
            title: "CPU trend",
            summary: "Derived percentiles smoothing recent CPU behavior.",
            beginner: "Helps tell whether load is spiky or sustained.",
            expert: "A more robust view than a single instant snapshot.",
        },
    }
}

/// The `derived.future` entry.
pub open spec fn derived_future_model() -> EntryModel {
    EntryModel {
        id: "derived.future",
        category: "derived",
        panel: "alerts",
        status: MetricStatus::Planned,
        ui_visibility: UiVisibility::IndexedOnly,
        audience: Audience::Expert,
        aliases: seq![
            "health index",
            "synthetic health indices",
            "anomaly detection",
            "correlation engine",
            "correlation engine os app",
            "correlation engine os ↔ app",
        ],
        tags: seq![
            "derived",
            "health",
            "anomaly",
            "correlation",
            "planned",
        ],
        fr: ReferenceText {
            title: "Indices et intelligence derives",
            summary: "Indices de sante, anomalies et correlation, encore planifies.",
            beginner: "Ces aides doivent simplifier la lecture, pas la rendre opaque.",
            expert: "Ils doivent rester relies aux signaux bruts et explicables.",
        },
        en: ReferenceText {
            title: "Derived intelligence",
            summary: "Health indices, anomaly detection and correlation, still planned.",
            beginner: "These helpers should simplify reading, not make it opaque.",
            expert: "They must remain grounded in raw explainable signals.",
        },
    }
}

/// The `infra.future` entry.
pub open spec fn infra_future_model() -> EntryModel {
    EntryModel {
        id: "infra.future",
        category: "infrastructure",
        panel: "linux",
        status: MetricStatus::Planned,
        ui_visibility: UiVisibility::IndexedOnly,
        audience: Audience::Expert,
        aliases: seq![
            "numa",
            "numa metrics",
            "ipc",
            "ipc monitoring",
            "security events",
            "ebpf",
            "ebpf option",
        ],
        tags: seq![
            "infrastructure",
            "numa",
            "ipc",
            "security",
            "ebpf",
            "planned",
        ],
        fr: ReferenceText {
            title: "Signaux infrastructure avances",
            summary: "NUMA, IPC, securite et eBPF font partie de la surface future.",
            beginner: "Pas indispensables pour une V1 locale credible.",
            expert: "Ils doivent vivre dans la meme base de reference meme s'ils ne sont pas encore rendus.",
        },
        en: ReferenceText {
            title: "Advanced infrastructure signals",
            summary: "NUMA, IPC, security and eBPF belong to the future surface area.",
            beginner: "Not required for a credible local V1.",
            expert: "They should live in the same reference base even before they are rendered.",
        },
    }
}

/// The `runtime.current` entry.
pub open spec fn runtime_current_model() -> EntryModel {
    EntryModel {
        id: "runtime.current",
        category: "runtime",
        panel: "alerts",
        status: MetricStatus::Implemented,
        ui_visibility: UiVisibility::IndexedOnly,
        audience: Audience::Beginner,
        aliases: seq![
            "tui mode",
            "json export",
            "csv export",
            "prometheus text export",
            "record mode",
            "replay mode",
            "service install scaffolding",
        ],
        tags: seq![
            "runtime",
            "tui",
            "json",
            "csv",
            "prometheus",
            "record",
            "replay",
            "service",
        ],
        fr: ReferenceText {
            title: "Capacites runtime actuelles",
            summary: "Regroupe les modes et exports deja disponibles dans Pulsar.",
            beginner: "Ce bloc couvre les fonctions que l'on peut deja utiliser au quotidien.",
            expert: "Le niveau de profondeur varie encore selon OS et selon la surface runtime concernee.",
        },
        en: ReferenceText {
            title: "Current runtime capabilities",
            summary: "Groups the modes and exports already available in Pulsar.",
            beginner: "This block covers the features already usable day to day.",
            expert: "Depth still varies by OS and by the runtime surface involved.",
        },
    }
}

/// The `runtime.future` entry.
pub open spec fn runtime_future_model() -> EntryModel {
    EntryModel {
        id: "runtime.future",
        category: "runtime",
        panel: "alerts",
        status: MetricStatus::Planned,
        ui_visibility: UiVisibility::IndexedOnly,
        audience: Audience::Expert,
        aliases: seq![
            "multi-host / distributed mode",
            "enterprise controls",
        ],
        tags: seq![
            "runtime",
            "distributed",
            "enterprise",
            "planned",
        ],
        fr: ReferenceText {
            title: "Capacites runtime futures",
            summary: "Modes distribues et controles enterprise, encore hors scope courant.",
            beginner: "Pas necessaire pour la V1 locale actuelle.",
            expert: "Doit vivre dans la meme base de reference meme avant implementation.",
        },
        en: ReferenceText {
            title: "Future runtime capabilities",
            summary: "Distributed mode and enterprise controls, still outside current scope.",
            beginner: "Not required for the current local V1.",
            expert: "Should live in the same reference base even before implementation.",
        },
    }
}

/// The catalog, in its order.
pub open spec fn catalog_spec() -> Seq<EntryModel> {
    seq![
        cpu_usage_model(),
        cpu_load_model(),
        cpu_iowait_model(),
        memory_pressure_model(),
        memory_swap_model(),
        disk_await_model(),
        disk_queue_depth_model(),
        network_tcp_model(),
        network_retrans_model(),
        linux_psi_model(),
        linux_cgroup_model(),
        process_cpu_model(),
        process_jvm_model(),
        alerts_model(),
        expert_pressure_view_model(),
        expert_network_view_model(),
        expert_jvm_view_model(),
        expert_disk_pressure_view_model(),
        expert_pressure_paths_model(),
        expert_socket_states_model(),
        expert_jvm_hotspots_model(),
        expert_disk_waiters_model(),
        cpu_per_core_model(),
        cpu_scheduler_model(),
        cpu_steal_model(),
        cpu_pressure_model(),
        memory_breakdown_model(),
        memory_vm_counters_model(),
        disk_capacity_model(),
        disk_performance_model(),
        network_throughput_model(),
        network_packets_model(),
        network_errors_drops_model(),
        network_udp_depth_model(),
        process_inventory_model(),
        process_jvm_deep_model(),
        process_thread_analysis_model(),
        process_runtime_awareness_model(),
        system_identity_model(),
        derived_cpu_trend_model(),
        derived_future_model(),
        infra_future_model(),
        runtime_current_model(),
        runtime_future_model(),
    ]
}

/// The entries of the reference, in catalog order.
#[verifier::rlimit(60)]
pub fn catalog() -> (r: Vec<ReferenceEntry>)
    ensures
        models(r@) == catalog_spec(),
{
    let mut r: Vec<ReferenceEntry> = Vec::new();
    r.push(ReferenceEntry {
            id: "cpu.usage",
            category: "cpu",
            panel: "cpu",
            status: MetricStatus::Implemented,
            ui_visibility: UiVisibility::Visible,
            audience: Audience::Beginner,
            aliases: vec![
                "cpu",
                "usage",
                "global cpu",
                "global cpu usage",
                "global cpu usage %",
                "processor",
            ],
            tags: vec![
                "cpu",
                "usage",
                "global",
                "processor",
            ],
            fr: ReferenceText {
                title: "CPU global",
                summary: "Montre la charge CPU totale observee sur l'hote.",
                beginner: "Plus la valeur se rapproche de 100%, plus le processeur est occupe.",
                expert: "Le pourcentage agrege additionne user, nice, system, irq, softirq et steal selon la source OS.",
            },
            en: ReferenceText {
                title: "Global CPU",
                summary: "Shows total CPU load observed on the host.",
                beginner: "The closer the value is to 100%, the busier the processor is.",
                expert: "The aggregate percentage combines user, nice, system, irq, softirq and steal depending on OS source data.",
            },
        });
    assert(r@.last().aliases@ =~= cpu_usage_model().aliases);
    assert(r@.last().tags@ =~= cpu_usage_model().tags);
    assert(model_of(r@.last()) == cpu_usage_model());
    r.push(ReferenceEntry {
            id: "cpu.load",
            category: "cpu",
            panel: "cpu",
            status: MetricStatus::Implemented,
            ui_visibility: UiVisibility::Visible,
            audience: Audience::Beginner,
            aliases: vec![
                "load",
                "load average",
                "1m",
                "5m",
                "15m",
            ],
            tags: vec![
                "cpu",
                "load",
                "scheduler",
            ],
            fr: ReferenceText {
                title: "Load average",
                summary: "Mesure la pression sur l'ordonnanceur sur 1, 5 et 15 minutes.",
                beginner: "Une load au-dessus du nombre de CPU peut signaler une file d'attente importante.",
                expert: "La semantique varie selon l'OS, mais reste utile comme signal de contention globale.",
            },
            en: ReferenceText {
                title: "Load average",
                summary: "Measures scheduler pressure over 1, 5 and 15 minutes.",
                beginner: "A load value above CPU count can indicate meaningful run queue pressure.",
                expert: "OS semantics differ, but it remains a useful host-level contention signal.",
            },
        });
    assert(r@.last().aliases@ =~= cpu_load_model().aliases);
    assert(r@.last().tags@ =~= cpu_load_model().tags);
    assert(model_of(r@.last()) == cpu_load_model());
    r.push(ReferenceEntry {
            id: "cpu.iowait",
            category: "cpu",
            panel: "cpu",
            status: MetricStatus::Implemented,
            ui_visibility: UiVisibility::Visible,
            audience: Audience::Expert,
            aliases: vec![
                "iowait",
                "io wait",
                "cpu wait",
            ],
            tags: vec![
                "cpu",
                "disk",
                "latency",
                "linux",
            ],
            fr: ReferenceText {
                title: "CPU iowait",
                summary: "Temps passe par le CPU a attendre des IO blocantes.",
                beginner: "Une hausse d'iowait peut pointer vers un stockage lent ou sature.",
                expert: "Sur Linux, cette mesure vient des compteurs CPU et doit etre lue avec la latence disque et la queue depth.",
            },
            en: ReferenceText {
                title: "CPU iowait",
                summary: "CPU time spent waiting on blocking IO.",
                beginner: "Rising iowait can indicate slow or saturated storage.",
                expert: "On Linux this comes from CPU accounting and should be read alongside disk latency and queue depth.",
            },
        });
    assert(r@.last().aliases@ =~= cpu_iowait_model().aliases);
    assert(r@.last().tags@ =~= cpu_iowait_model().tags);
    assert(model_of(r@.last()) == cpu_iowait_model());
    r.push(ReferenceEntry {
            id: "memory.pressure",
            category: "memory",
            panel: "memory",
            status: MetricStatus::Implemented,
            ui_visibility: UiVisibility::Visible,
            audience: Audience::Beginner,
            aliases: vec![
                "memory pressure",
                "memory pressure score",
                "pressure",
                "available memory",
            ],
            tags: vec![
                "memory",
                "pressure",
                "available",
                "swap",
            ],
            fr: ReferenceText {
                title: "Pression memoire",
                summary: "Indice derive pour estimer la tension sur la memoire de l'hote.",
                beginner: "Une forte pression memoire signifie qu'il reste peu de marge avant swap ou reclaim agressif.",
                expert: "Pulsar derive ce score a partir de la memoire disponible, de l'usage et des compteurs associes.",
            },
            en: ReferenceText {
                title: "Memory pressure",
                summary: "Derived index estimating how stressed host memory is.",
                beginner: "High pressure means little margin remains before swap or aggressive reclaim.",
                expert: "Pulsar derives this score from available memory, usage and related counters.",
            },
        });
    assert(r@.last().aliases@ =~= memory_pressure_model().aliases);
    assert(r@.last().tags@ =~= memory_pressure_model().tags);
    assert(model_of(r@.last()) == memory_pressure_model());
    r.push(ReferenceEntry {
            id: "memory.swap",
            category: "memory",
            panel: "memory",
            status: MetricStatus::Implemented,
            ui_visibility: UiVisibility::Visible,
            audience: Audience::Beginner,
            aliases: vec![
                "swap",
                "swap total used",
                "swap total / used",
                "paging",
                "swpin",
                "swpout",
            ],
            tags: vec![
                "memory",
                "swap",
                "paging",
            ],
            fr: ReferenceText {
                title: "Swap",
                summary: "Montre l'utilisation de l'espace d'echange disque par la memoire virtuelle.",
                beginner: "Une forte activite swap peut ralentir fortement la machine.",
                expert: "Le swap doit etre interprete avec la pression memoire, pgin/pgout et les alertes.",
            },
            en: ReferenceText {
                title: "Swap",
                summary: "Shows disk-backed virtual memory usage.",
                beginner: "Heavy swap activity can slow the host down significantly.",
                expert: "Read swap together with memory pressure, pgin/pgout and alerts.",
            },
        });
    assert(r@.last().aliases@ =~= memory_swap_model().aliases);
    assert(r@.last().tags@ =~= memory_swap_model().tags);
    assert(model_of(r@.last()) == memory_swap_model());
    r.push(ReferenceEntry {
            id: "disk.await",
            category: "disk",
            panel: "disk",
            status: MetricStatus::Implemented,
            ui_visibility: UiVisibility::Visible,
            audience: Audience::Expert,
            aliases: vec![
                "await",
                "latency",
                "disk latency",
                "storage latency",
            ],
            tags: vec![
                "disk",
                "await",
                "latency",
                "storage",
            ],
            fr: ReferenceText {
                title: "Disk await",
                summary: "Latence moyenne observee par IO terminee.",
                beginner: "Plus cette valeur monte, plus les operations disque prennent du temps.",
                expert: "Pulsar la derive des compteurs de temps et d'IO completes, utile avec util% et queue depth.",
            },
            en: ReferenceText {
                title: "Disk await",
                summary: "Average latency observed per completed IO.",
                beginner: "Higher values mean disk operations take longer to finish.",
                expert: "Pulsar derives it from IO completion and timing counters; read it with util% and queue depth.",
            },
        });
    assert(r@.last().aliases@ =~= disk_await_model().aliases);
    assert(r@.last().tags@ =~= disk_await_model().tags);
    assert(model_of(r@.last()) == disk_await_model());
    r.push(ReferenceEntry {
            id: "disk.queue_depth",
            category: "disk",
            panel: "disk",
            status: MetricStatus::Implemented,
            ui_visibility: UiVisibility::Visible,
            audience: Audience::Expert,
            aliases: vec![
                "queue depth",
                "qd",
                "io queue",
            ],
            tags: vec![
                "disk",
                "queue",
                "latency",
                "saturation",
            ],
            fr: ReferenceText {
                title: "Queue depth",
                summary: "Approximation du nombre moyen d'IO en attente ou en cours.",
                beginner: "Une queue depth qui monte avec la latence indique souvent une saturation.",
                expert: "Cette valeur vient du temps IO pondere, donc elle reste une approximation aggregate par device.",
            },
            en: ReferenceText {
                title: "Queue depth",
                summary: "Approximation of the average number of pending or active IOs.",
                beginner: "If queue depth rises with latency, storage saturation is likely.",
                expert: "This comes from weighted IO time, so it remains an aggregated per-device approximation.",
            },
        });
    assert(r@.last().aliases@ =~= disk_queue_depth_model().aliases);
    assert(r@.last().tags@ =~= disk_queue_depth_model().tags);
    assert(model_of(r@.last()) == disk_queue_depth_model());
    r.push(ReferenceEntry {
            id: "network.tcp",
            category: "network",
            panel: "network",
            status: MetricStatus::Implemented,
            ui_visibility: UiVisibility::Visible,
            audience: Audience::Beginner,
            aliases: vec![
                "tcp",
                "connections",
                "total tcp connections",
                "established tcp connections",
                "established",
                "listen",
                "time_wait",
            ],
            tags: vec![
                "network",
                "tcp",
                "connections",
                "listen",
            ],
            fr: ReferenceText {
                title: "Connexions TCP",
                summary: "Resume l'etat courant des connexions reseau TCP.",
                beginner: "Established montre les connexions actives, Listen les sockets en attente, TimeWait les fins de session recentes.",
                expert: "Une hausse anormale de TimeWait, retrans ou syn peut signaler un probleme applicatif ou reseau.",
            },
            en: ReferenceText {
                title: "TCP connections",
                summary: "Summarizes the current state of TCP network connections.",
                beginner: "Established shows active sessions, Listen waiting sockets, TimeWait recent closed sessions.",
                expert: "Unusual rises in TimeWait, retrans or syn states can point to application or network issues.",
            },
        });
    assert(r@.last().aliases@ =~= network_tcp_model().aliases);
    assert(r@.last().tags@ =~= network_tcp_model().tags);
    assert(model_of(r@.last()) == network_tcp_model());
    r.push(ReferenceEntry {
            id: "network.retrans",
            category: "network",
            panel: "network",
            status: MetricStatus::Implemented,
            ui_visibility: UiVisibility::Visible,
            audience: Audience::Expert,
            aliases: vec![
                "retrans",
                "retransmits",
                "packet loss",
            ],
            tags: vec![
                "network",
                "retrans",
                "loss",
                "tcp",
            ],
            fr: ReferenceText {
                title: "Retransmissions",
                summary: "Compteur de segments TCP retransmis.",
                beginner: "Une hausse peut indiquer perte reseau, congestion ou cible lente.",
                expert: "A lire avec le debit, les erreurs, l'etat des connexions et la saturation applicative.",
            },
            en: ReferenceText {
                title: "Retransmissions",
                summary: "Counter of retransmitted TCP segments.",
                beginner: "Rising values can indicate packet loss, congestion or a slow peer.",
                expert: "Read together with throughput, errors, connection states and application saturation.",
            },
        });
    assert(r@.last().aliases@ =~= network_retrans_model().aliases);
    assert(r@.last().tags@ =~= network_retrans_model().tags);
    assert(model_of(r@.last()) == network_retrans_model());
    r.push(ReferenceEntry {
            id: "linux.psi",
            category: "linux",
            panel: "linux",
            status: MetricStatus::Partial,
            ui_visibility: UiVisibility::Visible,
            audience: Audience::Expert,
            aliases: vec![
                "psi",
                "pressure stall",
                "stall",
                "linux pressure",
            ],
            tags: vec![
                "linux",
                "psi",
                "pressure",
                "cpu",
                "memory",
                "io",
            ],
            fr: ReferenceText {
                title: "PSI Linux",
                summary: "Pressure Stall Information mesure le temps perdu a cause de CPU, memoire ou IO.",
                beginner: "Si PSI monte, des taches restent bloquees faute de ressources.",
                expert: "Le avg10 est tres utile pour voir une degradation recente, surtout combine a cgroup et alerts.",
            },
            en: ReferenceText {
                title: "Linux PSI",
                summary: "Pressure Stall Information measures time lost to CPU, memory or IO pressure.",
                beginner: "When PSI rises, tasks are getting stalled by missing resources.",
                expert: "avg10 is especially useful for recent degradation, particularly with cgroup and alert context.",
            },
        });
    assert(r@.last().aliases@ =~= linux_psi_model().aliases);
    assert(r@.last().tags@ =~= linux_psi_model().tags);
    assert(model_of(r@.last()) == linux_psi_model());
    r.push(ReferenceEntry {
            id: "linux.cgroup",
            category: "linux",
            panel: "linux",
            status: MetricStatus::Partial,
            ui_visibility: UiVisibility::Visible,
            audience: Audience::Expert,
            aliases: vec![
                "cgroup",
                "container",
                "containers cgroup v2",
                "containers / cgroup v2",
                "cpu throttle",
                "memory max",
            ],
            tags: vec![
                "linux",
                "cgroup",
                "container",
                "limits",
            ],
            fr: ReferenceText {
                title: "Cgroup v2",
                summary: "Expose les limites et usages de ressources du groupe de controle courant.",
                beginner: "Pratique pour savoir si le processus tourne dans un conteneur ou sous quotas.",
                expert: "La memoire max, les pids et le throttling CPU aident a differencier un probleme host d'une limite imposee.",
            },
            en: ReferenceText {
                title: "Cgroup v2",
                summary: "Shows resource limits and usage for the current control group.",
                beginner: "Useful to tell whether the process runs inside a container or quota.",
                expert: "Memory max, pid limits and CPU throttling help separate host pressure from imposed limits.",
            },
        });
    assert(r@.last().aliases@ =~= linux_cgroup_model().aliases);
    assert(r@.last().tags@ =~= linux_cgroup_model().tags);
    assert(model_of(r@.last()) == linux_cgroup_model());
    r.push(ReferenceEntry {
            id: "process.cpu",
            category: "process",
            panel: "process",
            status: MetricStatus::Implemented,
            ui_visibility: UiVisibility::Visible,
            audience: Audience::Beginner,
            aliases: vec![
                "process cpu",
                "top process",
                "pid",
                "threads",
            ],
            tags: vec![
                "process",
                "cpu",
                "pid",
                "top",
            ],
            fr: ReferenceText {
                title: "Top processus",
                summary: "Liste les processus les plus visibles selon CPU et autres compteurs.",
                beginner: "Commencez ici pour voir quel processus consomme CPU, memoire ou descripteurs.",
                expert: "La vue est utile pour un tri rapide, mais doit etre recroisee avec watch, snapshot ou replay.",
            },
            en: ReferenceText {
                title: "Top processes",
                summary: "Lists the most visible processes by CPU and related counters.",
                beginner: "Start here to see which process is using CPU, memory or file descriptors.",
                expert: "This is a fast triage view and should be cross-checked with watch, snapshot or replay.",
            },
        });
    assert(r@.last().aliases@ =~= process_cpu_model().aliases);
    assert(r@.last().tags@ =~= process_cpu_model().tags);
    assert(model_of(r@.last()) == process_cpu_model());
    r.push(ReferenceEntry {
            id: "process.jvm",
            category: "process",
            panel: "process",
            status: MetricStatus::Partial,
            ui_visibility: UiVisibility::Visible,
            audience: Audience::Expert,
            aliases: vec![
                "jvm",
                "java",
                "jvm detection",
            ],
            tags: vec![
                "process",
                "jvm",
                "java",
            ],
            fr: ReferenceText {
                title: "Detection JVM",
                summary: "Marque certains processus comme JVM selon des heuristiques simples.",
                beginner: "Le tag JVM aide a reperer rapidement une application Java dans la liste.",
                expert: "Ce n'est pas encore une detection profonde de runtime; le signal reste heuristique.",
            },
            en: ReferenceText {
                title: "JVM detection",
                summary: "Marks some processes as JVMs using simple heuristics.",
                beginner: "The JVM tag helps spot Java applications quickly in the process list.",
                expert: "This is not deep runtime detection yet; the signal is still heuristic.",
            },
        });
    assert(r@.last().aliases@ =~= process_jvm_model().aliases);
    assert(r@.last().tags@ =~= process_jvm_model().tags);
    assert(model_of(r@.last()) == process_jvm_model());
    r.push(ReferenceEntry {
            id: "alerts",
            category: "derived",
            panel: "alerts",
            status: MetricStatus::Implemented,
            ui_visibility: UiVisibility::Visible,
            audience: Audience::Beginner,
            aliases: vec![
                "alerts",
                "threshold alerts",
                "warning",
                "critical",
                "health",
            ],
            tags: vec![
                "alerts",
                "health",
                "thresholds",
            ],
            fr: ReferenceText {
                title: "Alertes",
                summary: "Les alertes synthetisent les signaux les plus urgents du snapshot.",
                beginner: "Utilisez-les comme point d'entree, puis remontez vers CPU, memoire, disque ou reseau.",
                expert: "Les alertes actuelles sont locales et basees sur seuils; elles donnent du contexte mais pas une RCA complete.",
            },
            en: ReferenceText {
                title: "Alerts",
                summary: "Alerts summarize the most urgent signals in the current snapshot.",
                beginner: "Use them as an entry point, then drill into CPU, memory, disk or network.",
                expert: "Current alerts are local and threshold-based; they provide context, not full RCA.",
            },
        });
    assert(r@.last().aliases@ =~= alerts_model().aliases);
    assert(r@.last().tags@ =~= alerts_model().tags);
    assert(model_of(r@.last()) == alerts_model());
    r.push(ReferenceEntry {
            id: "expert.pressure_view",
            category: "derived",
            panel: "linux",
            status: MetricStatus::Implemented,
            ui_visibility: UiVisibility::IndexedOnly,
            audience: Audience::Expert,
            aliases: vec![
                "pressure+",
                "expert pressure",
                "pressure view",
                "diagnostic pression",
            ],
            tags: vec![
                "expert",
                "pressure",
                "psi",
                "cgroup",
                "memory",
            ],
            fr: ReferenceText {
                title: "Vue experte pression",
                summary: "Regroupe pression memoire, PSI, throttling et processus bloques.",
                beginner: "Vue reservee au diagnostic avance de contention locale.",
                expert: "Doit aider a separer pression host, pression cgroup et symptomes process.",
            },
            en: ReferenceText {
                title: "Expert pressure view",
                summary: "Groups memory pressure, PSI, throttling and stalled processes.",
                beginner: "This view is meant for advanced local contention diagnosis.",
                expert: "It should separate host pressure, cgroup pressure and process symptoms.",
            },
        });
    assert(r@.last().aliases@ =~= expert_pressure_view_model().aliases);
    assert(r@.last().tags@ =~= expert_pressure_view_model().tags);
    assert(model_of(r@.last()) == expert_pressure_view_model());
    r.push(ReferenceEntry {
            id: "expert.network_view",
            category: "network",
            panel: "network",
            status: MetricStatus::Implemented,
            ui_visibility: UiVisibility::IndexedOnly,
            audience: Audience::Expert,
            aliases: vec![
                "network+",
                "expert network",
                "network diagnosis",
                "socket diagnosis",
            ],
            tags: vec![
                "expert",
                "network",
                "tcp",
                "udp",
                "retrans",
                "socket",
            ],
            fr: ReferenceText {
                title: "Vue experte reseau",
                summary: "Met en avant debit, pps, retransmissions et etats TCP.",
                beginner: "Plus technique qu'une simple vue trafic, utile pour incidents reseau.",
                expert: "Pensee comme une lecture locale inspiree des reflexes Wireshark sans capture brute.",
            },
            en: ReferenceText {
                title: "Expert network view",
                summary: "Highlights throughput, pps, retransmissions and TCP states.",
                beginner: "More technical than a simple traffic view and useful during network incidents.",
                expert: "Designed as a local readout inspired by Wireshark instincts without raw packet capture.",
            },
        });
    assert(r@.last().aliases@ =~= expert_network_view_model().aliases);
    assert(r@.last().tags@ =~= expert_network_view_model().tags);
    assert(model_of(r@.last()) == expert_network_view_model());
    r.push(ReferenceEntry {
            id: "expert.jvm_view",
            category: "process",
            panel: "process",
            status: MetricStatus::Implemented,
            ui_visibility: UiVisibility::IndexedOnly,
            audience: Audience::Expert,
            aliases: vec![
                "jvm+",
                "expert jvm",
                "jvm diagnosis",
                "java diagnosis",
            ],
            tags: vec![
                "expert",
                "jvm",
                "java",
                "threads",
                "runtime",
            ],
            fr: ReferenceText {
                title: "Vue experte JVM",
                summary: "Met en avant CPU, memoire, threads, FDs et IO des JVM detectees.",
                beginner: "Donne un premier tri local avant des outils JVM plus intrusifs.",
                expert: "Ce n'est pas encore un thread dump analyzer, mais une passerelle rapide vers la bonne JVM.",
            },
            en: ReferenceText {
                title: "Expert JVM view",
                summary: "Highlights CPU, memory, threads, FDs and IO for detected JVMs.",
                beginner: "Provides a first local triage before using more intrusive JVM tooling.",
                expert: "This is not yet a thread-dump analyzer, but it is a fast bridge to the right JVM.",
            },
        });
    assert(r@.last().aliases@ =~= expert_jvm_view_model().aliases);
    assert(r@.last().tags@ =~= expert_jvm_view_model().tags);
    assert(model_of(r@.last()) == expert_jvm_view_model());
    r.push(ReferenceEntry {
            id: "expert.disk_pressure_view",
            category: "disk",
            panel: "disk",
            status: MetricStatus::Implemented,
            ui_visibility: UiVisibility::IndexedOnly,
            audience: Audience::Expert,
            aliases: vec![
                "disk+",
                "expert disk",
                "disk pressure",
                "disk contention",
            ],
            tags: vec![
                "expert",
                "disk",
                "await",
                "queue",
                "latency",
                "disk sleep",
            ],
            fr: ReferenceText {
                title: "Vue experte contention disque",
                summary: "Croise disque chaud, latence, queue depth et processus en sommeil disque.",
                beginner: "Utile pour repondre vite a la question : quel disque souffre et qui attend ?",
                expert: "Doit aider a relier saturation bloc, service time et symptomes process.",
            },
            en: ReferenceText {
                title: "Expert disk contention view",
                summary: "Cross-checks hot disks, latency, queue depth and disk-sleeping processes.",
                beginner: "Useful to answer quickly: which disk is hurting and who is waiting?",
                expert: "It should connect block saturation, service time and process symptoms.",
            },
        });
    assert(r@.last().aliases@ =~= expert_disk_pressure_view_model().aliases);
    assert(r@.last().tags@ =~= expert_disk_pressure_view_model().tags);
    assert(model_of(r@.last()) == expert_disk_pressure_view_model());
    r.push(ReferenceEntry {
            id: "expert.pressure_paths",
            category: "derived",
            panel: "linux",
            status: MetricStatus::Implemented,
            ui_visibility: UiVisibility::IndexedOnly,
            audience: Audience::Expert,
            aliases: vec![
                "pressure paths",
                "host mem pressure",
                "psi mem avg10",
                "cpu throttled",
            ],
            tags: vec![
                "expert",
                "pressure",
                "psi",
                "cgroup",
                "drilldown",
            ],
            fr: ReferenceText {
                title: "Chemins de pression",
                summary: "Table de drill-down qui separe pression hote, PSI, load et cgroup.",
                beginner: "Utile si vous voulez comprendre d'ou vient la tension avant d'ouvrir d'autres outils.",
                expert: "Le but est de distinguer pression host-wide, limite cgroup et symptomes CPU/IO dans une seule vue.",
            },
            en: ReferenceText {
                title: "Pressure paths",
                summary: "Drill-down table separating host pressure, PSI, load and cgroup signals.",
                beginner: "Useful when you want to understand where the stress comes from before opening heavier tools.",
                expert: "The goal is to separate host-wide pressure, cgroup limits and CPU/IO symptoms in one view.",
            },
        });
    assert(r@.last().aliases@ =~= expert_pressure_paths_model().aliases);
    assert(r@.last().tags@ =~= expert_pressure_paths_model().tags);
    assert(model_of(r@.last()) == expert_pressure_paths_model());
    r.push(ReferenceEntry {
            id: "expert.socket_states",
            category: "network",
            panel: "network",
            status: MetricStatus::Implemented,
            ui_visibility: UiVisibility::IndexedOnly,
            audience: Audience::Expert,
            aliases: vec![
                "socket states",
                "tcp states",
                "syn sent recv",
                "close wait",
            ],
            tags: vec![
                "expert",
                "network",
                "socket",
                "tcp",
                "drilldown",
            ],
            fr: ReferenceText {
                title: "Etats socket/TCP",
                summary: "Drill-down des etats TCP et UDP pour l'analyse incidente locale.",
                beginner: "Permet de voir si le probleme ressemble plus a un souci de lien ou de sessions.",
                expert: "A lire avec retransmissions, drops et debit d'interface pour approcher une lecture type Wireshark locale.",
            },
            en: ReferenceText {
                title: "Socket/TCP states",
                summary: "Drill-down of TCP and UDP states for local incident analysis.",
                beginner: "Helps tell whether the issue looks more like a link problem or a session problem.",
                expert: "Read together with retransmissions, drops and interface throughput for a local Wireshark-like readout.",
            },
        });
    assert(r@.last().aliases@ =~= expert_socket_states_model().aliases);
    assert(r@.last().tags@ =~= expert_socket_states_model().tags);
    assert(model_of(r@.last()) == expert_socket_states_model());
    r.push(ReferenceEntry {
            id: "expert.jvm_hotspots",
            category: "process",
            panel: "process",
            status: MetricStatus::Implemented,
            ui_visibility: UiVisibility::IndexedOnly,
            audience: Audience::Expert,
            aliases: vec![
                "jvm hotspots",
                "thread runtime",
                "thread analyzer",
                "runtime focus",
            ],
            tags: vec![
                "expert",
                "jvm",
                "threads",
                "runtime",
                "drilldown",
            ],
            fr: ReferenceText {
                title: "Hotspots JVM",
                summary: "Table de drill-down JVM centree sur CPU, RSS, threads, FDs et IO.",
                beginner: "Utile pour identifier rapidement quelle JVM merite un outil plus intrusif.",
                expert: "Ce n'est pas encore un dump de threads, mais deja une orientation runtime locale tres rapide.",
            },
            en: ReferenceText {
                title: "JVM hotspots",
                summary: "JVM drill-down table focused on CPU, RSS, threads, FDs and IO.",
                beginner: "Useful to quickly identify which JVM deserves deeper tooling.",
                expert: "This is not yet a full thread dump, but it is already a fast local runtime orientation.",
            },
        });
    assert(r@.last().aliases@ =~= expert_jvm_hotspots_model().aliases);
    assert(r@.last().tags@ =~= expert_jvm_hotspots_model().tags);
    assert(model_of(r@.last()) == expert_jvm_hotspots_model());
    r.push(ReferenceEntry {
            id: "expert.disk_waiters",
            category: "disk",
            panel: "disk",
            status: MetricStatus::Implemented,
            ui_visibility: UiVisibility::IndexedOnly,
            audience: Audience::Expert,
            aliases: vec![
                "disk waiters",
                "waiters io",
                "processus d",
                "io waiters",
            ],
            tags: vec![
                "expert",
                "disk",
                "waiters",
                "io",
                "drilldown",
            ],
            fr: ReferenceText {
                title: "Attenteurs disque / IO",
                summary: "Relie le disque chaud aux processus qui lisent, ecrivent ou attendent le blocage.",
                beginner: "Repond vite a la question : qui souffre du stockage maintenant ?",
                expert: "Pensee pour relier device, queue depth, await et symptomes process dans le meme ecran.",
            },
            en: ReferenceText {
                title: "Disk / IO waiters",
                summary: "Links the hot disk to the processes reading, writing or waiting on storage.",
                beginner: "Quickly answers: who is suffering from storage right now?",
                expert: "Designed to connect device, queue depth, await and process symptoms in the same screen.",
            },
        });
    assert(r@.last().aliases@ =~= expert_disk_waiters_model().aliases);
    assert(r@.last().tags@ =~= expert_disk_waiters_model().tags);
    assert(model_of(r@.last()) == expert_disk_waiters_model());
    r.push(ReferenceEntry {
            id: "cpu.per_core",
            category: "cpu",
            panel: "cpu",
            status: MetricStatus::Partial,
            ui_visibility: UiVisibility::IndexedOnly,
            audience: Audience::Beginner,
            aliases: vec![
                "per core",
                "core cpu",
                "cpu core",
                "per-core cpu usage",
            ],
            tags: vec![
                "cpu",
                "core",
                "hotspot",
            ],
            fr: ReferenceText {
                title: "CPU par coeur",
                summary: "Detail CPU coeur par coeur.",
                beginner: "Permet de voir un coeur saturer meme si le global reste modere.",
                expert: "Utile pour les workloads single-thread et les problemes d'affinite.",
            },
            en: ReferenceText {
                title: "Per-core CPU",
                summary: "CPU broken down per core.",
                beginner: "Lets you see one hot core even if total CPU remains moderate.",
                expert: "Useful for single-thread workloads and affinity issues.",
            },
        });
    assert(r@.last().aliases@ =~= cpu_per_core_model().aliases);
    assert(r@.last().tags@ =~= cpu_per_core_model().tags);
    assert(model_of(r@.last()) == cpu_per_core_model());
    r.push(ReferenceEntry {
            id: "cpu.scheduler",
            category: "cpu",
            panel: "cpu",
            status: MetricStatus::Implemented,
            ui_visibility: UiVisibility::IndexedOnly,
            audience: Audience::Expert,
            aliases: vec![
                "context switches",
                "interrupt count",
                "interrupts",
                "ctx",
                "irq count",
            ],
            tags: vec![
                "cpu",
                "scheduler",
                "interrupts",
            ],
            fr: ReferenceText {
                title: "Signaux ordonnanceur CPU",
                summary: "Regroupe context switches et interruptions.",
                beginner: "Aide a reperer une agitation systeme inhabituelle.",
                expert: "A relier a load, irq%, softirq% et au profil de charge.",
            },
            en: ReferenceText {
                title: "CPU scheduler signals",
                summary: "Groups context switches and interrupts.",
                beginner: "Helps spot unusual system churn.",
                expert: "Read it with load, irq%, softirq% and workload profile.",
            },
        });
    assert(r@.last().aliases@ =~= cpu_scheduler_model().aliases);
    assert(r@.last().tags@ =~= cpu_scheduler_model().tags);
    assert(model_of(r@.last()) == cpu_scheduler_model());
    r.push(ReferenceEntry {
            id: "cpu.steal",
            category: "cpu",
            panel: "cpu",
            status: MetricStatus::Partial,
            ui_visibility: UiVisibility::IndexedOnly,
            audience: Audience::Expert,
            aliases: vec![
                "steal",
                "steal %",
                "stolen cpu",
            ],
            tags: vec![
                "cpu",
                "steal",
                "virtualization",
            ],
            fr: ReferenceText {
                title: "CPU steal",
                summary: "Temps CPU vole par la couche de virtualisation.",
                beginner: "Surtout utile en VM pour voir si l'hote manque de CPU reel.",
                expert: "Signal fort sous Linux, plus approximatif hors Linux.",
            },
            en: ReferenceText {
                title: "CPU steal",
                summary: "CPU time taken away by the virtualization layer.",
                beginner: "Mostly useful on VMs to see whether the host lacks real CPU time.",
                expert: "Strong signal on Linux, more approximate outside Linux.",
            },
        });
    assert(r@.last().aliases@ =~= cpu_steal_model().aliases);
    assert(r@.last().tags@ =~= cpu_steal_model().tags);
    assert(model_of(r@.last()) == cpu_steal_model());
    r.push(ReferenceEntry {
            id: "cpu.pressure",
            category: "cpu",
            panel: "cpu",
            status: MetricStatus::Planned,
            ui_visibility: UiVisibility::IndexedOnly,
            audience: Audience::Expert,
            aliases: vec![
                "cpu pressure",
                "cpu pressure indicators",
                "scheduler pressure",
            ],
            tags: vec![
                "cpu",
                "pressure",
                "planned",
            ],
            fr: ReferenceText {
                title: "Pression CPU",
                summary: "Indicateur de contention CPU plus direct que l'usage pur.",
                beginner: "Objectif : montrer quand les taches attendent vraiment du CPU.",
                expert: "Planifie pour completer usage, load et PSI.",
            },
            en: ReferenceText {
                title: "CPU pressure",
                summary: "A CPU contention signal more direct than raw usage.",
                beginner: "Goal: show when tasks are truly waiting for CPU time.",
                expert: "Planned to complement usage, load and PSI.",
            },
        });
    assert(r@.last().aliases@ =~= cpu_pressure_model().aliases);
    assert(r@.last().tags@ =~= cpu_pressure_model().tags);
    assert(model_of(r@.last()) == cpu_pressure_model());
    r.push(ReferenceEntry {
            id: "memory.breakdown",
            category: "memory",
            panel: "memory",
            status: MetricStatus::Implemented,
            ui_visibility: UiVisibility::IndexedOnly,
            audience: Audience::Beginner,
            aliases: vec![
                "total memory",
                "used memory",
                "free memory",
                "available memory",
                "cached memory",
            ],
            tags: vec![
                "memory",
                "used",
                "free",
                "available",
                "cached",
            ],
            fr: ReferenceText {
                title: "Detail memoire",
                summary: "Total, utilise, libre, disponible, cache.",
                beginner: "La memoire disponible est souvent plus utile que la memoire libre brute.",
                expert: "La parite cache/buffers reste variable selon l'OS.",
            },
            en: ReferenceText {
                title: "Memory breakdown",
                summary: "Total, used, free, available, cached.",
                beginner: "Available memory is often more useful than raw free memory.",
                expert: "Cache/buffer parity still varies by OS.",
            },
        });
    assert(r@.last().aliases@ =~= memory_breakdown_model().aliases);
    assert(r@.last().tags@ =~= memory_breakdown_model().tags);
    assert(model_of(r@.last()) == memory_breakdown_model());
    r.push(ReferenceEntry {
            id: "memory.vm_counters",
            category: "memory",
            panel: "memory",
            status: MetricStatus::Implemented,
            ui_visibility: UiVisibility::IndexedOnly,
            audience: Audience::Expert,
            aliases: vec![
                "buffers",
                "dirty pages",
                "pgfault",
                "pgscan",
                "pgsteal",
            ],
            tags: vec![
                "memory",
                "vm",
                "buffers",
                "dirty",
                "paging",
            ],
            fr: ReferenceText {
                title: "Compteurs VM",
                summary: "Compteurs paging, reclaim et activite memoire.",
                beginner: "Plus utile pour du diagnostic avance que pour une lecture simple.",
                expert: "Permet de separer cache sain, manque de RAM et reclaim agressif.",
            },
            en: ReferenceText {
                title: "VM counters",
                summary: "Paging, reclaim and memory-activity counters.",
                beginner: "More useful for advanced diagnosis than simple daily reading.",
                expert: "Helps separate healthy cache, RAM shortage and aggressive reclaim.",
            },
        });
    assert(r@.last().aliases@ =~= memory_vm_counters_model().aliases);
    assert(r@.last().tags@ =~= memory_vm_counters_model().tags);
    assert(model_of(r@.last()) == memory_vm_counters_model());
    r.push(ReferenceEntry {
            id: "disk.capacity",
            category: "disk",
            panel: "disk",
            status: MetricStatus::Implemented,
            ui_visibility: UiVisibility::IndexedOnly,
            audience: Audience::Beginner,
            aliases: vec![
                "disk usage",
                "disk usage %",
                "disk free",
                "disk total used free",
                "disk total / used / free",
                "capacity",
                "filesystem usage",
                "per-filesystem detail parity",
            ],
            tags: vec![
                "disk",
                "filesystem",
                "capacity",
                "usage",
            ],
            fr: ReferenceText {
                title: "Capacite disque",
                summary: "Total, libre, utilise et taux d'occupation.",
                beginner: "Un disque plein peut degrader l'hote et casser des applis.",
                expert: "La profondeur filesystem detaillee complete reste encore planifiee.",
            },
            en: ReferenceText {
                title: "Disk capacity",
                summary: "Total, free, used space and usage rate.",
                beginner: "A full disk can degrade the host and break applications.",
                expert: "Full filesystem-detail parity is still planned.",
            },
        });
    assert(r@.last().aliases@ =~= disk_capacity_model().aliases);
    assert(r@.last().tags@ =~= disk_capacity_model().tags);
    assert(model_of(r@.last()) == disk_capacity_model());
    r.push(ReferenceEntry {
            id: "disk.performance",
            category: "disk",
            panel: "disk",
            status: MetricStatus::Implemented,
            ui_visibility: UiVisibility::IndexedOnly,
            audience: Audience::Expert,
            aliases: vec![
                "iops",
                "read iops",
                "write iops",
                "throughput",
                "read throughput",
                "write throughput",
                "disk utilization",
                "disk utilization %",
                "disk await latency",
                "disk await / latency",
                "util",
                "service time",
            ],
            tags: vec![
                "disk",
                "iops",
                "throughput",
                "utilization",
            ],
            fr: ReferenceText {
                title: "Performance disque",
                summary: "IOPS, debit, util% et temps de service.",
                beginner: "Un haut debit seul n'est pas un probleme s'il n'y a pas de latence.",
                expert: "La saturation se lit avec await, queue depth, util% et debit ensemble.",
            },
            en: ReferenceText {
                title: "Disk performance",
                summary: "IOPS, throughput, util% and service time.",
                beginner: "High throughput alone is not a problem if latency stays low.",
                expert: "Saturation must be read through await, queue depth, util% and throughput together.",
            },
        });
    assert(r@.last().aliases@ =~= disk_performance_model().aliases);
    assert(r@.last().tags@ =~= disk_performance_model().tags);
    assert(model_of(r@.last()) == disk_performance_model());
    r.push(ReferenceEntry {
            id: "network.throughput",
            category: "network",
            panel: "network",
            status: MetricStatus::Implemented,
            ui_visibility: UiVisibility::IndexedOnly,
            audience: Audience::Beginner,
            aliases: vec![
                "rx bytes",
                "rx bytes/sec",
                "tx bytes",
                "tx bytes/sec",
                "network throughput",
                "bandwidth",
            ],
            tags: vec![
                "network",
                "throughput",
                "rx",
                "tx",
            ],
            fr: ReferenceText {
                title: "Debit reseau",
                summary: "Debit entrant et sortant par interface.",
                beginner: "Premier signal pour voir si une interface travaille beaucoup.",
                expert: "A croiser avec paquets, erreurs, drops et retrans.",
            },
            en: ReferenceText {
                title: "Network throughput",
                summary: "Inbound and outbound throughput per interface.",
                beginner: "First signal to see whether an interface is busy.",
                expert: "Cross-check it with packets, errors, drops and retrans.",
            },
        });
    assert(r@.last().aliases@ =~= network_throughput_model().aliases);
    assert(r@.last().tags@ =~= network_throughput_model().tags);
    assert(model_of(r@.last()) == network_throughput_model());
    r.push(ReferenceEntry {
            id: "network.packets",
            category: "network",
            panel: "network",
            status: MetricStatus::Implemented,
            ui_visibility: UiVisibility::IndexedOnly,
            audience: Audience::Expert,
            aliases: vec![
                "packet rate",
                "rx packets",
                "rx packets/sec",
                "tx packets",
                "tx packets/sec",
                "pps",
            ],
            tags: vec![
                "network",
                "packets",
                "pps",
            ],
            fr: ReferenceText {
                title: "Paquets reseau",
                summary: "Paquets recus et emis par seconde.",
                beginner: "Utile quand le debit semble faible mais qu'il y a beaucoup de petits paquets.",
                expert: "Aide a distinguer gros flux et trafic a forte frequence de paquets.",
            },
            en: ReferenceText {
                title: "Network packets",
                summary: "Packets received and sent per second.",
                beginner: "Useful when throughput looks low but lots of tiny packets are moving.",
                expert: "Helps separate large flows from packet-rate-heavy traffic.",
            },
        });
    assert(r@.last().aliases@ =~= network_packets_model().aliases);
    assert(r@.last().tags@ =~= network_packets_model().tags);
    assert(model_of(r@.last()) == network_packets_model());
    r.push(ReferenceEntry {
            id: "network.errors_drops",
            category: "network",
            panel: "network",
            status: MetricStatus::Partial,
            ui_visibility: UiVisibility::IndexedOnly,
            audience: Audience::Expert,
            aliases: vec![
                "errors",
                "rx tx errors",
                "rx/tx errors",
                "drops",
                "rx tx drops",
                "rx/tx drops",
                "packet drops",
            ],
            tags: vec![
                "network",
                "errors",
                "drops",
            ],
            fr: ReferenceText {
                title: "Erreurs et drops reseau",
                summary: "Compteurs de paquets en erreur ou abandonnes.",
                beginner: "Une hausse persistante est un mauvais signal pour le chemin reseau.",
                expert: "La parite exacte varie encore selon l'OS, mais le signal reste critique.",
            },
            en: ReferenceText {
                title: "Network errors and drops",
                summary: "Counters of errored or dropped packets.",
                beginner: "A persistent rise is a bad sign for the network path.",
                expert: "Exact parity still varies by OS, but the signal remains critical.",
            },
        });
    assert(r@.last().aliases@ =~= network_errors_drops_model().aliases);
    assert(r@.last().tags@ =~= network_errors_drops_model().tags);
    assert(model_of(r@.last()) == network_errors_drops_model());
    r.push(ReferenceEntry {
            id: "network.udp_depth",
            category: "network",
            panel: "network",
            status: MetricStatus::Planned,
            ui_visibility: UiVisibility::IndexedOnly,
            audience: Audience::Expert,
            aliases: vec![
                "udp",
                "socket family",
                "udp depth",
                "udp socket family depth",
                "udp / socket family depth",
            ],
            tags: vec![
                "network",
                "udp",
                "planned",
            ],
            fr: ReferenceText {
                title: "Profondeur UDP/socket",
                summary: "Vue reseau plus fine par famille de sockets, encore planifiee.",
                beginner: "Pas vitale au quotidien, utile pour cas reseau plus avances.",
                expert: "Manque encore pour une lecture fine des charges non-TCP.",
            },
            en: ReferenceText {
                title: "UDP/socket depth",
                summary: "Finer network view by socket family, still planned.",
                beginner: "Not vital daily, useful for more advanced network cases.",
                expert: "Still missing for precise reading of non-TCP workloads.",
            },
        });
    assert(r@.last().aliases@ =~= network_udp_depth_model().aliases);
    assert(r@.last().tags@ =~= network_udp_depth_model().tags);
    assert(model_of(r@.last()) == network_udp_depth_model());
    r.push(ReferenceEntry {
            id: "process.inventory",
            category: "process",
            panel: "process",
            status: MetricStatus::Implemented,
            ui_visibility: UiVisibility::IndexedOnly,
            audience: Audience::Beginner,
            aliases: vec![
                "top n",
                "top n process listing",
                "process rss",
                "process vsz",
                "process thread count",
                "thread count",
                "process fd count",
                "fd count",
                "process owner",
                "owner",
                "process read write bytes",
                "process read/write bytes",
                "process io",
                "basic jvm detection",
            ],
            tags: vec![
                "process",
                "rss",
                "vsz",
                "threads",
                "fd",
                "owner",
                "io",
            ],
            fr: ReferenceText {
                title: "Inventaire processus",
                summary: "Regroupe RSS, VSZ, threads, FDs, owner et IO.",
                beginner: "Le point de depart pour voir quel processus pese vraiment sur l'hote.",
                expert: "Vue de tri rapide a completer par watch, snapshot et replay.",
            },
            en: ReferenceText {
                title: "Process inventory",
                summary: "Groups RSS, VSZ, threads, FDs, owner and IO.",
                beginner: "The starting point to see which process really weighs on the host.",
                expert: "Fast triage view to complement with watch, snapshot and replay.",
            },
        });
    assert(r@.last().aliases@ =~= process_inventory_model().aliases);
    assert(r@.last().tags@ =~= process_inventory_model().tags);
    assert(model_of(r@.last()) == process_inventory_model());
    r.push(ReferenceEntry {
            id: "process.jvm.deep",
            category: "process",
            panel: "process",
            status: MetricStatus::Planned,
            ui_visibility: UiVisibility::IndexedOnly,
            audience: Audience::Expert,
            aliases: vec![
                "strong jvm awareness",
                "deep jvm",
                "jvm runtime",
            ],
            tags: vec![
                "process",
                "jvm",
                "planned",
                "runtime",
            ],
            fr: ReferenceText {
                title: "JVM approfondie",
                summary: "Visibilite JVM plus riche, encore planifiee.",
                beginner: "Objectif : faire mieux qu'un simple tag JVM.",
                expert: "Doit etendre l'heuristique actuelle avec de vrais signaux runtime.",
            },
            en: ReferenceText {
                title: "Deep JVM awareness",
                summary: "Richer JVM visibility, still planned.",
                beginner: "Goal: go beyond a simple JVM tag.",
                expert: "Should extend the current heuristic with real runtime signals.",
            },
        });
    assert(r@.last().aliases@ =~= process_jvm_deep_model().aliases);
    assert(r@.last().tags@ =~= process_jvm_deep_model().tags);
    assert(model_of(r@.last()) == process_jvm_deep_model());
    r.push(ReferenceEntry {
            id: "process.thread_analysis",
            category: "process",
            panel: "process",
            status: MetricStatus::Planned,
            ui_visibility: UiVisibility::IndexedOnly,
            audience: Audience::Expert,
            aliases: vec![
                "deep per-thread analysis",
                "thread analysis",
            ],
            tags: vec![
                "process",
                "threads",
                "planned",
            ],
            fr: ReferenceText {
                title: "Analyse par thread",
                summary: "Diagnostic detaille au niveau thread, encore planifie.",
                beginner: "Pas necessaire pour l'usage de base, mais utile pour blocages complexes.",
                expert: "Important pour hot threads, affinite CPU et internals runtime.",
            },
            en: ReferenceText {
                title: "Per-thread analysis",
                summary: "Detailed thread-level diagnosis, still planned.",
                beginner: "Not needed for basic use, but useful for complex stalls.",
                expert: "Important for hot threads, CPU affinity and runtime internals.",
            },
        });
    assert(r@.last().aliases@ =~= process_thread_analysis_model().aliases);
    assert(r@.last().tags@ =~= process_thread_analysis_model().tags);
    assert(model_of(r@.last()) == process_thread_analysis_model());
    r.push(ReferenceEntry {
            id: "process.runtime_awareness",
            category: "process",
            panel: "process",
            status: MetricStatus::Planned,
            ui_visibility: UiVisibility::IndexedOnly,
            audience: Audience::Expert,
            aliases: vec![
                "python awareness",
                "runtime awareness",
                "python app-runtime awareness",
                "python / app-runtime awareness",
            ],
            tags: vec![
                "process",
                "runtime",
                "python",
                "planned",
            ],
            fr: ReferenceText {
                title: "Awareness runtime",
                summary: "Visibilite applicative plus riche pour Python et autres runtimes.",
                beginner: "Objectif : mieux relier un processus a son comportement applicatif.",
                expert: "Etend Pulsar au-dela de la simple observabilite host.",
            },
            en: ReferenceText {
                title: "Runtime awareness",
                summary: "Richer application visibility for Python and other runtimes.",
                beginner: "Goal: connect a process more clearly to real application behavior.",
                expert: "Extends Pulsar beyond simple host observability.",
            },
        });
    assert(r@.last().aliases@ =~= process_runtime_awareness_model().aliases);
    assert(r@.last().tags@ =~= process_runtime_awareness_model().tags);
    assert(model_of(r@.last()) == process_runtime_awareness_model());
    r.push(ReferenceEntry {
            id: "system.identity",
            category: "system",
            panel: "cpu",
            status: MetricStatus::Implemented,
            ui_visibility: UiVisibility::IndexedOnly,
            audience: Audience::Beginner,
            aliases: vec![
                "hostname",
                "os version",
                "os name version",
                "os name / version",
                "kernel",
                "kernel version",
                "uptime",
                "architecture",
                "cpu count",
            ],
            tags: vec![
                "system",
                "metadata",
                "host",
                "kernel",
                "uptime",
            ],
            fr: ReferenceText {
                title: "Identite systeme",
                summary: "Nom d'hote, OS, kernel, uptime, architecture et nombre de CPU.",
                beginner: "Base utile pour savoir exactement quelle machine on lit.",
                expert: "Conditionne l'interpretation correcte des autres metriques.",
            },
            en: ReferenceText {
                title: "System identity",
                summary: "Hostname, OS, kernel, uptime, architecture and CPU count.",
                beginner: "Useful baseline to know exactly which machine you are reading.",
                expert: "Shapes the correct interpretation of the other metrics.",
            },
        });
    assert(r@.last().aliases@ =~= system_identity_model().aliases);
    assert(r@.last().tags@ =~= system_identity_model().tags);
    assert(model_of(r@.last()) == system_identity_model());
    r.push(ReferenceEntry {
            id: "derived.cpu_trend",
            category: "derived",
            panel: "cpu",
            status: MetricStatus::Implemented,
            ui_visibility: UiVisibility::IndexedOnly,
            audience: Audience::Expert,
            aliases: vec![
                "cpu trend",
                "cpu trend percentiles",
                "p50",
                "p95",
                "trend percentiles",
            ],
            tags: vec![
                "derived",
                "cpu",
                "trend",
                "percentiles",
            ],
            fr: ReferenceText {
                title: "Tendance CPU",
                summary: "Percentiles derives pour lisser la lecture CPU recente.",
                beginner: "Aide a voir si la charge est ponctuelle ou installee.",
                expert: "Une vue plus robuste qu'un instantane unique.",
            },
            en: ReferenceText {
                title: "CPU trend",
                summary: "Derived percentiles smoothing recent CPU behavior.",
                beginner: "Helps tell whether load is spiky or sustained.",
                expert: "A more robust view than a single instant snapshot.",
            },
        });
    assert(r@.last().aliases@ =~= derived_cpu_trend_model().aliases);
    assert(r@.last().tags@ =~= derived_cpu_trend_model().tags);
    assert(model_of(r@.last()) == derived_cpu_trend_model());
    r.push(ReferenceEntry {
            id: "derived.future",
            category: "derived",
            panel: "alerts",
            status: MetricStatus::Planned,
            ui_visibility: UiVisibility::IndexedOnly,
            audience: Audience::Expert,
            aliases: vec![
                "health index",
                "synthetic health indices",
                "anomaly detection",
                "correlation engine",
                "correlation engine os app",
                "correlation engine os ↔ app",
            ],
            tags: vec![
                "derived",
                "health",
                "anomaly",
                "correlation",
                "planned",
            ],
            fr: ReferenceText {
                title: "Indices et intelligence derives",
                summary: "Indices de sante, anomalies et correlation, encore planifies.",
                beginner: "Ces aides doivent simplifier la lecture, pas la rendre opaque.",
                expert: "Ils doivent rester relies aux signaux bruts et explicables.",
            },
            en: ReferenceText {
                title: "Derived intelligence",
                summary: "Health indices, anomaly detection and correlation, still planned.",
                beginner: "These helpers should simplify reading, not make it opaque.",
                expert: "They must remain grounded in raw explainable signals.",
            },
        });
    assert(r@.last().aliases@ =~= derived_future_model().aliases);
    assert(r@.last().tags@ =~= derived_future_model().tags);
    assert(model_of(r@.last()) == derived_future_model());
    r.push(ReferenceEntry {
            id: "infra.future",
            category: "infrastructure",
            panel: "linux",
            status: MetricStatus::Planned,
            ui_visibility: UiVisibility::IndexedOnly,
            audience: Audience::Expert,
            aliases: vec![
                "numa",
                "numa metrics",
                "ipc",
                "ipc monitoring",
                "security events",
                "ebpf",
                "ebpf option",
            ],
            tags: vec![
                "infrastructure",
                "numa",
                "ipc",
                "security",
                "ebpf",
                "planned",
            ],
            fr: ReferenceText {
                title: "Signaux infrastructure avances",
                summary: "NUMA, IPC, securite et eBPF font partie de la surface future.",
                beginner: "Pas indispensables pour une V1 locale credible.",
                expert: "Ils doivent vivre dans la meme base de reference meme s'ils ne sont pas encore rendus.",
            },
            en: ReferenceText {
                title: "Advanced infrastructure signals",
                summary: "NUMA, IPC, security and eBPF belong to the future surface area.",
                beginner: "Not required for a credible local V1.",
                expert: "They should live in the same reference base even before they are rendered.",
            },
        });
    assert(r@.last().aliases@ =~= infra_future_model().aliases);
    assert(r@.last().tags@ =~= infra_future_model().tags);
    assert(model_of(r@.last()) == infra_future_model());
    r.push(ReferenceEntry {
            id: "runtime.current",
            category: "runtime",
            panel: "alerts",
            status: MetricStatus::Implemented,
            ui_visibility: UiVisibility::IndexedOnly,
            audience: Audience::Beginner,
            aliases: vec![
                "tui mode",
                "json export",
                "csv export",
                "prometheus text export",
                "record mode",
                "replay mode",
                "service install scaffolding",
            ],
            tags: vec![
                "runtime",
                "tui",
                "json",
                "csv",
                "prometheus",
                "record",
                "replay",
                "service",
            ],
            fr: ReferenceText {
                title: "Capacites runtime actuelles",
                summary: "Regroupe les modes et exports deja disponibles dans Pulsar.",
                beginner: "Ce bloc couvre les fonctions que l'on peut deja utiliser au quotidien.",
                expert: "Le niveau de profondeur varie encore selon OS et selon la surface runtime concernee.",
            },
            en: ReferenceText {
                title: "Current runtime capabilities",
                summary: "Groups the modes and exports already available in Pulsar.",
                beginner: "This block covers the features already usable day to day.",
                expert: "Depth still varies by OS and by the runtime surface involved.",
            },
        });
    assert(r@.last().aliases@ =~= runtime_current_model().aliases);
    assert(r@.last().tags@ =~= runtime_current_model().tags);
    assert(model_of(r@.last()) == runtime_current_model());
    r.push(ReferenceEntry {
            id: "runtime.future",
            category: "runtime",
            panel: "alerts",
            status: MetricStatus::Planned,
            ui_visibility: UiVisibility::IndexedOnly,
            audience: Audience::Expert,
            aliases: vec![
                "multi-host / distributed mode",
                "enterprise controls",
            ],
            tags: vec![
                "runtime",
                "distributed",
                "enterprise",
                "planned",
            ],
            fr: ReferenceText {
                title: "Capacites runtime futures",
                summary: "Modes distribues et controles enterprise, encore hors scope courant.",
                beginner: "Pas necessaire pour la V1 locale actuelle.",
                expert: "Doit vivre dans la meme base de reference meme avant implementation.",
            },
            en: ReferenceText {
                title: "Future runtime capabilities",
                summary: "Distributed mode and enterprise controls, still outside current scope.",
                beginner: "Not required for the current local V1.",
                expert: "Should live in the same reference base even before implementation.",
            },
        });
    assert(r@.last().aliases@ =~= runtime_future_model().aliases);
    assert(r@.last().tags@ =~= runtime_future_model().tags);
    assert(model_of(r@.last()) == runtime_future_model());
    assert(models(r@) =~= catalog_spec());
    r
}

} // verus!
